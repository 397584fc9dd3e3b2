use vstd::prelude::*;
use crate::base::{BlockCompletionObjectRecord, CapabilityRecord, HartRecord, RunnableQueueRecord, WaitRecord};
use crate::block_request_queue::BlockRequestQueueEntryRef;
use crate::block_wait::{block_io_cancel_reason, is_block_io_cancel_reason, BlockWaitRecord};
use crate::display_cleanup::{target_of, DisplayCleanupTarget};
use crate::driver_store_binding::capability_id_is;
use crate::framebuffer_benchmark::{FramebufferBenchmarkSample, FramebufferBenchmarkTargets};
use crate::fs_wait::{fs_cancel_reason, is_fs_cancel_reason, FsWaitRecord};
use crate::capability::{granted_capability, granted_record, ledger_live, max_capability_id, revoked_capability_in};
use crate::waits::{cancelled_wait_token, created_wait_record, resolved_wait_token};
use crate::activation_waits::{blocked_activation_on_wait, cancelled_activation_wait, cleaned_up_activation_for_store_fault};
use crate::cleanup_transaction::{appended_labeled_event, began_cleanup, begun_transaction_is, committed_transaction};
use crate::events::{appended_event, EventDomain, EventKind};
use crate::graph::{SemanticGraph, Table};
use crate::lookup2::{pending_block_wait_is, pending_fs_wait_is, pending_wait_is, recorded_completion_is, store_is};
use crate::search::{any_match, exists_match, find_first, first_match, lemma_first_match_at, lemma_first_match_facts};
use crate::types::{
    BlockCompletionObjectId, BlockCompletionStatus, BlockDeviceObjectId, BlockDriverCleanupId,
    BlockPendingIoAction, BlockPendingIoPolicyId, BlockRangeObjectId, BlockRecoveryBenchmarkId,
    BlockRequestObjectId, BlockRequestQueueId, BlockWaitId, BlockWritePathId, BlockPageObjectId,
    BufferCacheObjectId, BufferCacheObjectState, CapabilityId, ContractObjectRef,
    CrossHartSchedulerDecisionId, DescriptorObjectAccess, DescriptorObjectId, DeviceCapabilityId,
    DeviceObjectId, DirectoryEntryKind, DirectoryObjectId, DirectoryObjectState, DisplayCapabilityId,
    DisplayCleanupId, DisplayObjectId, DriverStoreBindingId, EndpointObjectId, EventId,
    FileHandleCapabilityId, FileObjectId, FramebufferBenchmarkId, FramebufferDirtyRegionId,
    FramebufferDirtyRegionState, FramebufferFlushRegionId, FramebufferObjectId, FramebufferWriteId,
    ActivationId, AuthorityObjectRef, FsWaitId, Generation, HartId, HartState, IoCleanupId, RunnableQueueId, QueueObjectId, SchedulerDecisionId, SocketObjectId,
    StoreId, TaskId, TransactionId, WaitCancelReason, WaitId, WaitState, SocketWaitId, IoWaitId,
    ActivationContextId, SemanticWaitKind, ActivationWaitId, ActivationCleanupId, SavedContextId,
    TimerInterruptId, IpiEventId, PreemptionId, IrqEventId, WaitRestartPolicy,
};

verus! {

/// Why a command was refused before it was applied.
#[derive(Clone, Copy, Debug, PartialEq, Eq)]
pub enum CommandError {
    /// The graph does not meet the command's precondition; the message says which.
    Precondition(&'static str),
}

impl CommandError {
    /// A refusal for an unmet precondition.
    pub fn precondition(message: &'static str) -> (e: CommandError)
        ensures
            e == CommandError::Precondition(message),
    {
        CommandError::Precondition(message)
    }
}

/// The subsystem whose preflight handles a command.
#[derive(Clone, Copy, Debug, PartialEq, Eq, Structural)]
pub enum CommandDomain {
    Block,
    Storage,
    Io,
    Network,
    Lifecycle,
    Scheduler,
    Display,
}

/// A request to change the graph, checked by `SemanticGraph::preflight_command` before it
/// is applied.
#[allow(inconsistent_fields)]
pub enum SemanticCommand {
    RecordBlockDeviceObject {
        block_device: BlockDeviceObjectId,
        name: String,
        device: DeviceObjectId,
        device_generation: Generation,
        sector_size: u32,
        sector_count: u64,
        read_only: bool,
        max_transfer_sectors: u32,
        note: String,
    },
    RecordBlockRangeObject {
        block_range: BlockRangeObjectId,
        block_device: BlockDeviceObjectId,
        block_device_generation: Generation,
        start_sector: u64,
        sector_count: u64,
        note: String,
    },
    RecordBlockWait {
        block_wait: BlockWaitId,
        wait: WaitId,
        wait_generation: Generation,
        block_request: BlockRequestObjectId,
        block_request_generation: Generation,
        note: String,
    },
    ResolveBlockWait {
        block_wait: BlockWaitId,
        block_wait_generation: Generation,
        block_completion: BlockCompletionObjectId,
        block_completion_generation: Generation,
        note: String,
    },
    CancelBlockWait {
        block_wait: BlockWaitId,
        block_wait_generation: Generation,
        errno: i32,
        reason: WaitCancelReason,
        note: String,
    },
    ApplyBlockPendingIoPolicy {
        policy: BlockPendingIoPolicyId,
        block_wait: BlockWaitId,
        block_wait_generation: Generation,
        action: BlockPendingIoAction,
        retry_request: Option<BlockRequestObjectId>,
        retry_request_generation: Option<Generation>,
        errno: i32,
        retry_attempt: u32,
        max_retries: u32,
        note: String,
    },
    RecordBlockRecoveryBenchmark {
        benchmark: BlockRecoveryBenchmarkId,
        scenario: String,
        cleanup: BlockDriverCleanupId,
        cleanup_generation: Generation,
        io_cleanup: IoCleanupId,
        io_cleanup_generation: Generation,
        recovery_start_event: EventId,
        recovery_complete_event: EventId,
        cancelled_block_waits: u32,
        cancelled_wait_tokens: u32,
        released_dma_buffers: u32,
        revoked_device_capabilities: u32,
        recovery_nanos: u64,
        budget_nanos: u64,
        note: String,
    },
    RecordBlockWritePath {
        write_path: BlockWritePathId,
        backend: ContractObjectRef,
        block_request: BlockRequestObjectId,
        block_request_generation: Generation,
        block_completion: BlockCompletionObjectId,
        block_completion_generation: Generation,
        payload_digest: u64,
        note: String,
    },
    RecordBlockRequestQueue {
        queue: BlockRequestQueueId,
        backend: ContractObjectRef,
        block_device: BlockDeviceObjectId,
        block_device_generation: Generation,
        depth: u32,
        entries: Vec<BlockRequestQueueEntryRef>,
        note: String,
    },
    RecordBufferCacheObject {
        buffer_cache_object: BufferCacheObjectId,
        block_page_object: BlockPageObjectId,
        block_page_object_generation: Generation,
        page: ContractObjectRef,
        page_dirty_generation: Generation,
        block_offset: u64,
        byte_len: u64,
        cache_state: BufferCacheObjectState,
        coherency_epoch: u64,
        note: String,
    },
    RecordDirectoryObject {
        directory_object: DirectoryObjectId,
        file_object: FileObjectId,
        file_object_generation: Generation,
        namespace: String,
        directory_key: String,
        directory_path: String,
        entry_name: String,
        child_file_key: String,
        child_path: String,
        entry_kind: DirectoryEntryKind,
        file_size: u64,
        content_digest: u64,
        state: DirectoryObjectState,
        note: String,
    },
    RecordFsWait {
        fs_wait: FsWaitId,
        wait: WaitId,
        wait_generation: Generation,
        file_handle_capability: FileHandleCapabilityId,
        file_handle_capability_generation: Generation,
        operation: String,
        sequence: u64,
        note: String,
    },
    ResolveFsWait {
        fs_wait: FsWaitId,
        fs_wait_generation: Generation,
        note: String,
    },
    CancelFsWait {
        fs_wait: FsWaitId,
        fs_wait_generation: Generation,
        errno: i32,
        reason: WaitCancelReason,
        note: String,
    },
    RecordDescriptorObject {
        descriptor: DescriptorObjectId,
        queue: QueueObjectId,
        queue_generation: Generation,
        slot: u16,
        access: DescriptorObjectAccess,
        length: u32,
        note: String,
    },
    BindDriverStore {
        binding: DriverStoreBindingId,
        driver_store: StoreId,
        driver_store_generation: Generation,
        device: DeviceObjectId,
        device_generation: Generation,
        device_capability: DeviceCapabilityId,
        device_capability_generation: Generation,
        note: String,
    },
    RecordEndpointObject {
        endpoint: EndpointObjectId,
        socket: SocketObjectId,
        socket_generation: Generation,
        local_addr: [u8; 4],
        local_port: u16,
        remote_addr: [u8; 4],
        remote_port: u16,
        note: String,
    },
    GrantCapability {
        subject: String,
        object: String,
        operations: Vec<String>,
        object_ref: Option<AuthorityObjectRef>,
        owner_store: Option<StoreId>,
        owner_store_generation: Option<Generation>,
    },
    RevokeCapability {
        cap: CapabilityId,
    },
    ResolveWait {
        wait: WaitId,
        reason: String,
    },
    CancelWait {
        wait: WaitId,
        errno: i32,
        reason: WaitCancelReason,
    },
    RegisterHart {
        hart: HartId,
        hardware_id: u64,
        label: String,
        boot: bool,
    },
    ClearHartCurrentActivation {
        hart: HartId,
        hart_generation: Generation,
        activation: ActivationId,
        activation_generation: Generation,
        reason: String,
    },
    BindRunnableQueueOwner {
        queue: RunnableQueueId,
        queue_generation: Generation,
        hart: HartId,
        hart_generation: Generation,
    },
    DequeueRunnable {
        queue: RunnableQueueId,
        activation: ActivationId,
    },
    CreateRuntimeActivation {
        activation: ActivationId,
        owner_task: TaskId,
        owner_task_generation: Generation,
        owner_store: Option<StoreId>,
        owner_store_generation: Option<Generation>,
        code_object: Option<ContractObjectRef>,
    },
    EnqueueRunnable {
        queue: RunnableQueueId,
        activation: ActivationId,
        activation_generation: Generation,
    },
    BindHartCurrentActivation {
        hart: HartId,
        hart_generation: Generation,
        activation: ActivationId,
        activation_generation: Generation,
    },
    RecordSchedulerDecision {
        decision: SchedulerDecisionId,
        queue: RunnableQueueId,
        queue_generation: Generation,
        selected_activation: ActivationId,
        selected_activation_generation: Generation,
        reason: String,
    },
    BeginCleanup {
        cleanup: TransactionId,
        store: StoreId,
        generation: Generation,
        reason: String,
    },
    ApplyCleanupStep {
        cleanup: TransactionId,
        step: String,
        target: String,
        observed_generation: Generation,
    },
    CommitCleanup {
        cleanup: TransactionId,
    },
    ResolveSocketWait {
        socket_wait: SocketWaitId,
        socket_wait_generation: Generation,
        ready_sequence: u64,
        byte_len: u64,
    },
    CancelSocketWait {
        socket_wait: SocketWaitId,
        socket_wait_generation: Generation,
        reason: WaitCancelReason,
    },
    ResolveIoWait {
        io_wait: IoWaitId,
        io_wait_generation: Generation,
        irq_event: IrqEventId,
        irq_event_generation: Generation,
    },
    CancelIoWait {
        io_wait: IoWaitId,
        io_wait_generation: Generation,
        reason: WaitCancelReason,
    },
    CreateActivationContext {
        context: ActivationContextId,
        activation: ActivationId,
        activation_generation: Generation,
    },
    BlockActivationOnWait {
        activation_wait: ActivationWaitId,
        activation: ActivationId,
        activation_generation: Generation,
        wait: WaitId,
        kind: SemanticWaitKind,
        blockers: Vec<ContractObjectRef>,
        deadline: Option<u64>,
        restart_policy: WaitRestartPolicy,
        note: String,
    },
    CancelActivationWait {
        activation_wait: ActivationWaitId,
        activation_wait_generation: Generation,
        wait_generation: Generation,
        errno: i32,
        reason: WaitCancelReason,
        note: String,
    },
    CleanupActivationForStoreFault {
        cleanup: ActivationCleanupId,
        store: StoreId,
        store_generation: Generation,
        activation: ActivationId,
        activation_generation: Generation,
        wait: Option<WaitId>,
        wait_generation: Option<Generation>,
        reason: String,
        note: String,
    },
    CaptureSavedContext {
        saved_context: SavedContextId,
        context: ActivationContextId,
        context_generation: Generation,
        pc: u64,
        sp: u64,
    },
    RecordTimerInterrupt {
        interrupt: TimerInterruptId,
        timer_epoch: u64,
        hart: HartId,
        hart_generation: Generation,
        target_activation: Option<ActivationId>,
        target_activation_generation: Option<Generation>,
    },
    RecordIpiEvent {
        ipi: IpiEventId,
        source_hart: HartId,
        source_hart_generation: Generation,
        target_hart: HartId,
        target_hart_generation: Generation,
        reason: String,
    },
    PreemptActivation {
        preemption: PreemptionId,
        activation: ActivationId,
        activation_generation: Generation,
        timer_interrupt: TimerInterruptId,
        timer_interrupt_generation: Generation,
        queue: RunnableQueueId,
    },
    SavePreemptedContext {
        context: ActivationContextId,
        saved_context: SavedContextId,
        preemption: PreemptionId,
        preemption_generation: Generation,
        pc: u64,
        sp: u64,
    },
    CreateWait {
        wait: WaitId,
        owner_task: Option<TaskId>,
        owner_store: Option<StoreId>,
        owner_store_generation: Option<Generation>,
        kind: SemanticWaitKind,
        generation: Generation,
        blockers: Vec<ContractObjectRef>,
        deadline: Option<u64>,
        restart_policy: WaitRestartPolicy,
        saved_context: Option<SavedContextId>,
    },
    SetHartState {
        hart: HartId,
        hart_generation: Generation,
        state: HartState,
        reason: String,
    },
    CreateRunnableQueue {
        queue: RunnableQueueId,
        label: String,
    },
    RecordCrossHartSchedulerDecision {
        cross_decision: CrossHartSchedulerDecisionId,
        scheduler_decision: SchedulerDecisionId,
        scheduler_decision_generation: Generation,
        deciding_hart: HartId,
        deciding_hart_generation: Generation,
        target_hart: HartId,
        target_hart_generation: Generation,
        reason: String,
        note: String,
    },
    RecordFramebufferDirtyRegion {
        framebuffer_dirty_region: FramebufferDirtyRegionId,
        owner_store: StoreId,
        owner_store_generation: Generation,
        framebuffer_write: FramebufferWriteId,
        framebuffer_write_generation: Generation,
        framebuffer_flush_region: Option<FramebufferFlushRegionId>,
        framebuffer_flush_region_generation: Option<Generation>,
        state: FramebufferDirtyRegionState,
        x: u32,
        y: u32,
        width: u32,
        height: u32,
        byte_offset: u64,
        byte_len: u64,
        payload_digest: u64,
        note: String,
    },
    CleanupDisplay {
        cleanup: DisplayCleanupId,
        owner_store: StoreId,
        owner_store_generation: Generation,
        display_capability: DisplayCapabilityId,
        display_capability_generation: Generation,
        display: DisplayObjectId,
        display_generation: Generation,
        framebuffer: FramebufferObjectId,
        framebuffer_generation: Generation,
        reason: String,
        note: String,
    },
    RecordFramebufferBenchmark {
        benchmark: FramebufferBenchmarkId,
        scenario: String,
        targets: FramebufferBenchmarkTargets,
        sample: FramebufferBenchmarkSample,
        note: String,
    },
}

/// The subsystem whose preflight handles `c`.
pub open spec fn command_domain(c: SemanticCommand) -> CommandDomain {
    match c {
        SemanticCommand::RecordBlockDeviceObject { .. } | SemanticCommand::RecordBlockRangeObject { .. }
        | SemanticCommand::RecordBlockWait { .. } | SemanticCommand::ResolveBlockWait { .. }
        | SemanticCommand::CancelBlockWait { .. } | SemanticCommand::ApplyBlockPendingIoPolicy { .. }
        | SemanticCommand::RecordBlockRecoveryBenchmark { .. } => CommandDomain::Block,
        SemanticCommand::RecordBlockWritePath { .. } | SemanticCommand::RecordBlockRequestQueue { .. }
        | SemanticCommand::RecordBufferCacheObject { .. } | SemanticCommand::RecordDirectoryObject { .. }
        | SemanticCommand::RecordFsWait { .. } | SemanticCommand::ResolveFsWait { .. }
        | SemanticCommand::CancelFsWait { .. } => CommandDomain::Storage,
        SemanticCommand::RecordDescriptorObject { .. } | SemanticCommand::BindDriverStore { .. }
        | SemanticCommand::CancelIoWait { .. } | SemanticCommand::ResolveIoWait { .. } => CommandDomain::Io,
        SemanticCommand::RecordEndpointObject { .. } | SemanticCommand::ResolveSocketWait { .. }
        | SemanticCommand::CancelSocketWait { .. } => CommandDomain::Network,
        SemanticCommand::GrantCapability { .. } | SemanticCommand::RevokeCapability { .. }
        | SemanticCommand::ResolveWait { .. } | SemanticCommand::CancelWait { .. }
        | SemanticCommand::BeginCleanup { .. } | SemanticCommand::ApplyCleanupStep { .. }
        | SemanticCommand::CommitCleanup { .. }
        | SemanticCommand::CreateWait { .. } | SemanticCommand::BlockActivationOnWait { .. }
        | SemanticCommand::CancelActivationWait { .. } | SemanticCommand::CleanupActivationForStoreFault { .. }
        => CommandDomain::Lifecycle,
        SemanticCommand::SetHartState { .. } | SemanticCommand::CreateRunnableQueue { .. }
        | SemanticCommand::RecordCrossHartSchedulerDecision { .. } | SemanticCommand::RegisterHart { .. }
        | SemanticCommand::ClearHartCurrentActivation { .. } | SemanticCommand::BindRunnableQueueOwner { .. }
        | SemanticCommand::DequeueRunnable { .. } | SemanticCommand::CreateRuntimeActivation { .. }
        | SemanticCommand::EnqueueRunnable { .. } | SemanticCommand::BindHartCurrentActivation { .. }
        | SemanticCommand::RecordSchedulerDecision { .. } | SemanticCommand::CreateActivationContext { .. }
        | SemanticCommand::CaptureSavedContext { .. } | SemanticCommand::RecordTimerInterrupt { .. }
        | SemanticCommand::RecordIpiEvent { .. } | SemanticCommand::PreemptActivation { .. }
        | SemanticCommand::SavePreemptedContext { .. }
        => CommandDomain::Scheduler,
        SemanticCommand::RecordFramebufferDirtyRegion { .. } | SemanticCommand::CleanupDisplay { .. }
        | SemanticCommand::RecordFramebufferBenchmark { .. } => CommandDomain::Display,
    }
}

impl SemanticCommand {
    /// The subsystem whose preflight handles this command.
    pub fn domain(&self) -> (d: CommandDomain)
        ensures
            d == command_domain(*self),
    {
        match self {
            SemanticCommand::RecordBlockDeviceObject { .. } | SemanticCommand::RecordBlockRangeObject { .. }
            | SemanticCommand::RecordBlockWait { .. } | SemanticCommand::ResolveBlockWait { .. }
            | SemanticCommand::CancelBlockWait { .. } | SemanticCommand::ApplyBlockPendingIoPolicy { .. }
            | SemanticCommand::RecordBlockRecoveryBenchmark { .. } => CommandDomain::Block,
            SemanticCommand::RecordBlockWritePath { .. } | SemanticCommand::RecordBlockRequestQueue { .. }
            | SemanticCommand::RecordBufferCacheObject { .. } | SemanticCommand::RecordDirectoryObject { .. }
            | SemanticCommand::RecordFsWait { .. } | SemanticCommand::ResolveFsWait { .. }
            | SemanticCommand::CancelFsWait { .. } => CommandDomain::Storage,
            SemanticCommand::RecordDescriptorObject { .. } | SemanticCommand::BindDriverStore { .. }
            | SemanticCommand::CancelIoWait { .. } | SemanticCommand::ResolveIoWait { .. } => CommandDomain::Io,
            SemanticCommand::RecordEndpointObject { .. } | SemanticCommand::ResolveSocketWait { .. }
            | SemanticCommand::CancelSocketWait { .. } => CommandDomain::Network,
            SemanticCommand::GrantCapability { .. } | SemanticCommand::RevokeCapability { .. }
            | SemanticCommand::ResolveWait { .. } | SemanticCommand::CancelWait { .. }
            | SemanticCommand::BeginCleanup { .. } | SemanticCommand::ApplyCleanupStep { .. }
            | SemanticCommand::CommitCleanup { .. }
            | SemanticCommand::CreateWait { .. } | SemanticCommand::BlockActivationOnWait { .. }
            | SemanticCommand::CancelActivationWait { .. } | SemanticCommand::CleanupActivationForStoreFault { .. }
            => CommandDomain::Lifecycle,
            SemanticCommand::SetHartState { .. } | SemanticCommand::CreateRunnableQueue { .. }
            | SemanticCommand::RecordCrossHartSchedulerDecision { .. } | SemanticCommand::RegisterHart { .. }
            | SemanticCommand::ClearHartCurrentActivation { .. } | SemanticCommand::BindRunnableQueueOwner { .. }
            | SemanticCommand::DequeueRunnable { .. } | SemanticCommand::CreateRuntimeActivation { .. }
            | SemanticCommand::EnqueueRunnable { .. } | SemanticCommand::BindHartCurrentActivation { .. }
            | SemanticCommand::RecordSchedulerDecision { .. } | SemanticCommand::CreateActivationContext { .. }
            | SemanticCommand::CaptureSavedContext { .. } | SemanticCommand::RecordTimerInterrupt { .. }
            | SemanticCommand::RecordIpiEvent { .. } | SemanticCommand::PreemptActivation { .. }
            | SemanticCommand::SavePreemptedContext { .. }
            => CommandDomain::Scheduler,
            SemanticCommand::RecordFramebufferDirtyRegion { .. } | SemanticCommand::CleanupDisplay { .. }
            | SemanticCommand::RecordFramebufferBenchmark { .. } => CommandDomain::Display,
        }
    }
}

/// The preflight answer for a validation outcome: success is accepted and a refusal is
/// reported as an unmet precondition carrying its message.
pub open spec fn as_precondition<T>(r: Result<T, &'static str>) -> Result<(), CommandError> {
    match r {
        Ok(_) => Ok(()),
        Err(m) => Err(CommandError::Precondition(m)),
    }
}

fn lift<T>(r: Result<T, &'static str>) -> (o: Result<(), CommandError>)
    ensures
        o == as_precondition(r),
{
    match r {
        Ok(_) => Ok(()),
        Err(m) => Err(CommandError::precondition(m)),
    }
}

/// A pending block wait of this id and generation whose wait token is pending too.
pub open spec fn cancellable_block_wait(g: SemanticGraph, id: BlockWaitId, generation: Generation) -> spec_fn(BlockWaitRecord) -> bool {
    |r: BlockWaitRecord| pending_block_wait_is(id, generation)(r) && any_match(g.waits@, pending_wait_is(r.wait, r.wait_generation))
}

/// A pending fs wait of this id and generation whose wait token is pending too.
pub open spec fn live_fs_wait(g: SemanticGraph, id: FsWaitId, generation: Generation) -> spec_fn(FsWaitRecord) -> bool {
    |r: FsWaitRecord| pending_fs_wait_is(id, generation)(r) && any_match(g.waits@, pending_wait_is(r.wait, r.wait_generation))
}

/// A pending wait token with this id (of any generation).
pub open spec fn pending_wait_with_id(id: WaitId) -> spec_fn(WaitRecord) -> bool {
    |w: WaitRecord| w.id == id && w.state == WaitState::Pending
}

/// A hart of this id and generation.
pub open spec fn hart_is(id: HartId, generation: Generation) -> spec_fn(HartRecord) -> bool {
    |h: HartRecord| h.id == id && h.generation == generation
}

/// A runnable queue with this id (of any generation).
pub open spec fn runnable_queue_id_is(id: RunnableQueueId) -> spec_fn(RunnableQueueRecord) -> bool {
    |q: RunnableQueueRecord| q.id == id
}

/// A ledger entry with this id.
pub open spec fn ledger_has(ledger: Seq<CapabilityRecord>, cap: CapabilityId) -> bool {
    any_match(ledger, capability_id_is(cap))
}

/// The completion `comp` answers block wait `r` in full and successfully.
pub open spec fn completion_answers(comp: BlockCompletionObjectRecord, r: BlockWaitRecord) -> bool {
    &&& comp.block_request == r.block_request && comp.block_request_generation == r.block_request_generation
    &&& comp.block_device == r.block_device && comp.block_device_generation == r.block_device_generation
    &&& comp.block_range == r.block_range && comp.block_range_generation == r.block_range_generation
    &&& comp.sequence == r.sequence && comp.status == BlockCompletionStatus::Success
    &&& comp.completed_bytes == r.byte_len
}

impl SemanticGraph {
    /// Preflight verdict of resolving a block wait with a completion.
    pub open spec fn block_wait_resolution_verdict(
        &self,
        block_wait: BlockWaitId,
        block_wait_generation: Generation,
        block_completion: BlockCompletionObjectId,
        block_completion_generation: Generation,
    ) -> Result<(), &'static str> {
        match first_match(self.block_waits@, pending_block_wait_is(block_wait, block_wait_generation)) {
            None => Err("block wait generation is missing or not pending"),
            Some(i) => match first_match(self.block_completion_objects@,
                recorded_completion_is(block_completion, block_completion_generation)) {
                None => Err("block wait completion generation is missing"),
                Some(c) => {
                    let r = self.block_waits@[i];
                    if completion_answers(self.block_completion_objects@[c], r)
                        && any_match(self.waits@, pending_wait_is(r.wait, r.wait_generation)) {
                        Ok(())
                    } else {
                        Err("block wait completion attribution mismatch")
                    }
                },
            },
        }
    }

    /// Preflight verdict of cancelling a block wait.
    pub open spec fn block_wait_cancellation_verdict(
        &self,
        block_wait: BlockWaitId,
        block_wait_generation: Generation,
        reason: WaitCancelReason,
    ) -> Result<(), &'static str> {
        if !block_io_cancel_reason(reason) {
            Err("block wait cancellation reason is not a block io reason")
        } else if any_match(self.block_waits@, cancellable_block_wait(*self, block_wait, block_wait_generation)) {
            Ok(())
        } else {
            Err("block wait generation is missing or not pending")
        }
    }

    /// Preflight verdict of resolving an fs wait.
    pub open spec fn fs_wait_resolution_verdict(&self, fs_wait: FsWaitId, fs_wait_generation: Generation) -> Result<(), &'static str> {
        if any_match(self.fs_waits@, live_fs_wait(*self, fs_wait, fs_wait_generation)) {
            Ok(())
        } else {
            Err("fs wait generation is missing or not pending")
        }
    }

    /// Preflight verdict of cancelling an fs wait.
    pub open spec fn fs_wait_cancellation_verdict(
        &self,
        fs_wait: FsWaitId,
        fs_wait_generation: Generation,
        reason: WaitCancelReason,
    ) -> Result<(), &'static str> {
        if !fs_cancel_reason(reason) {
            Err("fs wait cancellation reason is not a filesystem reason")
        } else {
            self.fs_wait_resolution_verdict(fs_wait, fs_wait_generation)
        }
    }

    /// Preflight verdict of granting a capability.
    pub open spec fn grant_capability_verdict(
        &self,
        operations: Seq<String>,
        owner_store: Option<StoreId>,
        owner_store_generation: Option<Generation>,
    ) -> Result<(), &'static str> {
        if operations.len() == 0 {
            Err("grant-capability requires at least one operation")
        } else {
            match owner_store {
                None => Ok(()),
                Some(store) => match owner_store_generation {
                    None => Err("owner store generation is required"),
                    Some(generation) => if any_match(self.stores@, store_is(store, generation)) {
                        Ok(())
                    } else {
                        Err("owner store generation is missing")
                    },
                },
            }
        }
    }

    /// What the preflight of command `c` answers: accepted, or the precondition it fails.
    pub open spec fn command_verdict(&self, c: SemanticCommand) -> Result<(), CommandError> {
        match c {
            SemanticCommand::RecordBlockDeviceObject { block_device, name, device, device_generation, sector_size,
                sector_count, max_transfer_sectors, .. } =>
                as_precondition(self.block_device_object_verdict(block_device, name@, device, device_generation,
                    sector_size, sector_count, max_transfer_sectors)),
            SemanticCommand::RecordBlockRangeObject { block_range, block_device, block_device_generation,
                start_sector, sector_count, .. } =>
                as_precondition(self.block_range_object_verdict(block_range, block_device, block_device_generation,
                    start_sector, sector_count)),
            SemanticCommand::RecordBlockWait { block_wait, wait, wait_generation, block_request,
                block_request_generation, .. } =>
                as_precondition(self.block_wait_verdict(block_wait, wait, wait_generation, block_request,
                    block_request_generation)),
            SemanticCommand::ResolveBlockWait { block_wait, block_wait_generation, block_completion,
                block_completion_generation, .. } =>
                as_precondition(self.block_wait_resolution_verdict(block_wait, block_wait_generation,
                    block_completion, block_completion_generation)),
            SemanticCommand::CancelBlockWait { block_wait, block_wait_generation, reason, .. } =>
                as_precondition(self.block_wait_cancellation_verdict(block_wait, block_wait_generation, reason)),
            SemanticCommand::ApplyBlockPendingIoPolicy { policy, block_wait, block_wait_generation, action,
                retry_request, retry_request_generation, errno, retry_attempt, max_retries, .. } =>
                as_precondition(self.block_pending_io_policy_verdict(policy, block_wait, block_wait_generation,
                    action, retry_request, retry_request_generation, errno, retry_attempt, max_retries)),
            SemanticCommand::RecordBlockRecoveryBenchmark { benchmark, scenario, cleanup, cleanup_generation,
                io_cleanup, io_cleanup_generation, recovery_start_event, recovery_complete_event,
                cancelled_block_waits, cancelled_wait_tokens, released_dma_buffers, revoked_device_capabilities,
                recovery_nanos, budget_nanos, .. } =>
                as_precondition(self.block_recovery_benchmark_verdict(benchmark, scenario@, cleanup,
                    cleanup_generation, io_cleanup, io_cleanup_generation, recovery_start_event,
                    recovery_complete_event, cancelled_block_waits, cancelled_wait_tokens, released_dma_buffers,
                    revoked_device_capabilities, recovery_nanos, budget_nanos)),
            SemanticCommand::RecordBlockWritePath { write_path, backend, block_request, block_request_generation,
                block_completion, block_completion_generation, payload_digest, .. } =>
                as_precondition(self.block_write_path_verdict(write_path, backend, block_request,
                    block_request_generation, block_completion, block_completion_generation, payload_digest)),
            SemanticCommand::RecordBlockRequestQueue { queue, backend, block_device, block_device_generation,
                depth, entries, .. } =>
                as_precondition(self.block_request_queue_verdict(queue, backend, block_device,
                    block_device_generation, depth, entries@)),
            SemanticCommand::RecordBufferCacheObject { buffer_cache_object, block_page_object,
                block_page_object_generation, page, page_dirty_generation, block_offset, byte_len, cache_state,
                coherency_epoch, .. } =>
                as_precondition(self.buffer_cache_object_verdict(buffer_cache_object, block_page_object,
                    block_page_object_generation, page, page_dirty_generation, block_offset, byte_len, cache_state,
                    coherency_epoch)),
            SemanticCommand::RecordDirectoryObject { directory_object, file_object, file_object_generation,
                namespace, directory_key, directory_path, entry_name, child_file_key, child_path, entry_kind,
                file_size, content_digest, state, .. } =>
                as_precondition(self.directory_object_verdict(directory_object, file_object,
                    file_object_generation, namespace@, directory_key@, directory_path@, entry_name@,
                    child_file_key@, child_path@, entry_kind, file_size, content_digest, state)),
            SemanticCommand::RecordFsWait { fs_wait, wait, wait_generation, file_handle_capability,
                file_handle_capability_generation, operation, sequence, .. } =>
                as_precondition(self.fs_wait_verdict(fs_wait, wait, wait_generation, file_handle_capability,
                    file_handle_capability_generation, operation@, sequence)),
            SemanticCommand::ResolveFsWait { fs_wait, fs_wait_generation, .. } =>
                as_precondition(self.fs_wait_resolution_verdict(fs_wait, fs_wait_generation)),
            SemanticCommand::CancelFsWait { fs_wait, fs_wait_generation, reason, .. } =>
                as_precondition(self.fs_wait_cancellation_verdict(fs_wait, fs_wait_generation, reason)),
            SemanticCommand::RecordDescriptorObject { descriptor, queue, queue_generation, slot, access, length, .. } =>
                as_precondition(self.descriptor_object_verdict(descriptor, queue, queue_generation, slot, access,
                    length)),
            SemanticCommand::BindDriverStore { binding, driver_store, driver_store_generation, device,
                device_generation, device_capability, device_capability_generation, .. } =>
                as_precondition(self.driver_store_binding_verdict(binding, driver_store, driver_store_generation,
                    device, device_generation, device_capability, device_capability_generation)),
            SemanticCommand::RecordEndpointObject { endpoint, socket, socket_generation, local_addr, local_port,
                remote_addr, remote_port, .. } =>
                as_precondition(self.endpoint_object_verdict(endpoint, socket, socket_generation, local_addr,
                    local_port, remote_addr, remote_port)),
            SemanticCommand::GrantCapability { operations, owner_store, owner_store_generation, .. } =>
                as_precondition(self.grant_capability_verdict(operations@, owner_store, owner_store_generation)),
            SemanticCommand::RevokeCapability { cap } =>
                if ledger_has(self.capabilities@, cap) { Ok(()) } else {
                    Err(CommandError::Precondition("capability does not exist"))
                },
            SemanticCommand::ResolveWait { wait, .. } | SemanticCommand::CancelWait { wait, .. } =>
                if any_match(self.waits@, pending_wait_with_id(wait)) { Ok(()) } else {
                    Err(CommandError::Precondition("wait is not pending"))
                },
            SemanticCommand::RegisterHart { hart, hardware_id, label, boot } =>
                as_precondition(self.register_hart_verdict(hart, hardware_id, label@, boot)),
            SemanticCommand::ClearHartCurrentActivation { hart, hart_generation, activation, activation_generation,
                reason } =>
                as_precondition(self.clear_hart_current_activation_verdict(hart, hart_generation, activation,
                    activation_generation, reason@)),
            SemanticCommand::BindRunnableQueueOwner { queue, queue_generation, hart, hart_generation } =>
                as_precondition(self.bind_runnable_queue_owner_verdict(queue, queue_generation, hart,
                    hart_generation)),
            SemanticCommand::DequeueRunnable { queue, activation } =>
                as_precondition(self.dequeue_runnable_verdict(queue, activation)),
            SemanticCommand::CreateRuntimeActivation { activation, owner_task, owner_task_generation, owner_store,
                owner_store_generation, code_object } =>
                as_precondition(self.create_runtime_activation_verdict(activation, owner_task, owner_task_generation,
                    owner_store, owner_store_generation, code_object)),
            SemanticCommand::EnqueueRunnable { queue, activation, activation_generation } =>
                as_precondition(self.enqueue_runnable_verdict(queue, activation, activation_generation)),
            SemanticCommand::BindHartCurrentActivation { hart, hart_generation, activation, activation_generation } =>
                as_precondition(self.bind_hart_current_activation_verdict(hart, hart_generation, activation,
                    activation_generation)),
            SemanticCommand::RecordSchedulerDecision { decision, queue, queue_generation, selected_activation,
                selected_activation_generation, reason } =>
                as_precondition(self.scheduler_decision_verdict(decision, queue, queue_generation,
                    selected_activation, selected_activation_generation, reason@)),
            SemanticCommand::BeginCleanup { cleanup, store, generation, .. } =>
                as_precondition(self.begin_cleanup_verdict(cleanup, store, generation)),
            SemanticCommand::CreateWait { owner_task, owner_store, owner_store_generation, blockers, deadline, .. } =>
                as_precondition(self.create_wait_verdict(owner_task, owner_store, owner_store_generation, blockers@,
                    deadline)),
            SemanticCommand::BlockActivationOnWait { activation_wait, activation, activation_generation, wait,
                blockers, deadline, .. } =>
                as_precondition(self.block_activation_on_wait_verdict(activation_wait, activation,
                    activation_generation, wait, blockers@, deadline)),
            SemanticCommand::CancelActivationWait { activation_wait, activation_wait_generation, wait_generation, .. } =>
                as_precondition(self.cancel_activation_wait_verdict(activation_wait, activation_wait_generation,
                    wait_generation)),
            SemanticCommand::CleanupActivationForStoreFault { cleanup, store, store_generation, activation,
                activation_generation, wait, wait_generation, reason, .. } =>
                as_precondition(self.activation_store_fault_cleanup_verdict(cleanup, store, store_generation,
                    activation, activation_generation, wait, wait_generation, reason@)),
            SemanticCommand::ResolveSocketWait { socket_wait, socket_wait_generation, ready_sequence, byte_len } =>
                as_precondition(self.socket_wait_resolution_verdict(socket_wait, socket_wait_generation,
                    ready_sequence, byte_len)),
            SemanticCommand::CancelSocketWait { socket_wait, socket_wait_generation, reason } =>
                as_precondition(self.socket_wait_cancellation_verdict(socket_wait, socket_wait_generation, reason)),
            SemanticCommand::CancelIoWait { io_wait, io_wait_generation, reason } =>
                as_precondition(self.io_wait_cancellation_verdict(io_wait, io_wait_generation, reason)),
            SemanticCommand::ResolveIoWait { io_wait, io_wait_generation, irq_event, irq_event_generation } =>
                as_precondition(self.io_wait_resolution_verdict(io_wait, io_wait_generation, irq_event,
                    irq_event_generation)),
            SemanticCommand::CreateActivationContext { context, activation, activation_generation } =>
                as_precondition(self.activation_context_verdict(context, activation, activation_generation)),
            SemanticCommand::CaptureSavedContext { saved_context, context, context_generation, pc, sp } =>
                as_precondition(self.capture_saved_context_verdict(saved_context, context, context_generation, pc, sp)),
            SemanticCommand::RecordTimerInterrupt { interrupt, timer_epoch, hart, hart_generation, target_activation,
                target_activation_generation } =>
                as_precondition(self.timer_interrupt_verdict(interrupt, timer_epoch, hart, hart_generation,
                    target_activation, target_activation_generation)),
            SemanticCommand::RecordIpiEvent { ipi, source_hart, source_hart_generation, target_hart,
                target_hart_generation, reason } =>
                as_precondition(self.ipi_event_verdict(ipi, source_hart, source_hart_generation, target_hart,
                    target_hart_generation, reason@)),
            SemanticCommand::PreemptActivation { preemption, activation, activation_generation, timer_interrupt,
                timer_interrupt_generation, queue } =>
                as_precondition(self.preempt_activation_verdict(preemption, activation, activation_generation,
                    timer_interrupt, timer_interrupt_generation, queue)),
            SemanticCommand::SavePreemptedContext { context, saved_context, preemption, preemption_generation, pc,
                sp } =>
                as_precondition(self.save_preempted_context_verdict(context, saved_context, preemption,
                    preemption_generation, pc, sp)),
            SemanticCommand::ApplyCleanupStep { cleanup, .. } | SemanticCommand::CommitCleanup { cleanup } =>
                as_precondition(self.cleanup_step_verdict(cleanup)),
            SemanticCommand::SetHartState { hart, hart_generation, reason, .. } =>
                if reason@.len() == 0 {
                    Err(CommandError::Precondition("hart state reason is empty"))
                } else if any_match(self.harts@, hart_is(hart, hart_generation)) {
                    Ok(())
                } else {
                    Err(CommandError::Precondition("hart generation is missing"))
                },
            SemanticCommand::CreateRunnableQueue { queue, label } =>
                if queue == 0 {
                    Err(CommandError::Precondition("runnable queue id=0 is invalid"))
                } else if label@.len() == 0 {
                    Err(CommandError::Precondition("runnable queue label is empty"))
                } else if any_match(self.runnable_queues@, runnable_queue_id_is(queue)) {
                    Err(CommandError::Precondition("runnable queue already exists"))
                } else {
                    Ok(())
                },
            SemanticCommand::RecordCrossHartSchedulerDecision { cross_decision, scheduler_decision,
                scheduler_decision_generation, deciding_hart, deciding_hart_generation, target_hart,
                target_hart_generation, reason, .. } =>
                as_precondition(self.cross_hart_scheduler_decision_verdict(cross_decision, scheduler_decision,
                    scheduler_decision_generation, deciding_hart, deciding_hart_generation, target_hart,
                    target_hart_generation, reason@)),
            SemanticCommand::RecordFramebufferDirtyRegion { framebuffer_dirty_region, owner_store,
                owner_store_generation, framebuffer_write, framebuffer_write_generation, framebuffer_flush_region,
                framebuffer_flush_region_generation, state, x, y, width, height, byte_offset, byte_len,
                payload_digest, .. } =>
                as_precondition(self.framebuffer_dirty_region_verdict(framebuffer_dirty_region, owner_store,
                    owner_store_generation, framebuffer_write, framebuffer_write_generation, framebuffer_flush_region,
                    framebuffer_flush_region_generation, state, x, y, width, height, byte_offset, byte_len,
                    payload_digest)),
            SemanticCommand::CleanupDisplay { cleanup, owner_store, owner_store_generation, display_capability,
                display_capability_generation, display, display_generation, framebuffer, framebuffer_generation,
                reason, .. } =>
                as_precondition(self.display_cleanup_verdict(cleanup, target_of(owner_store, owner_store_generation,
                    display_capability, display_capability_generation, display, display_generation, framebuffer,
                    framebuffer_generation), reason@)),
            SemanticCommand::RecordFramebufferBenchmark { benchmark, scenario, targets, sample, .. } =>
                as_precondition(self.framebuffer_benchmark_verdict(benchmark, scenario@, targets, sample)),
        }
    }
}


impl SemanticGraph {
    fn check_block_wait_resolution(
        &self,
        block_wait: BlockWaitId,
        block_wait_generation: Generation,
        block_completion: BlockCompletionObjectId,
        block_completion_generation: Generation,
    ) -> (r: Result<(), &'static str>)
        ensures
            r == self.block_wait_resolution_verdict(block_wait, block_wait_generation, block_completion,
                block_completion_generation),
    {
        let Some(i) = self.find_pending_block_wait(block_wait, block_wait_generation) else {
            return Err("block wait generation is missing or not pending");
        };
        let Some(c) = self.find_recorded_completion(block_completion, block_completion_generation) else {
            return Err("block wait completion generation is missing");
        };
        let r = &self.block_waits[i];
        let comp = &self.block_completion_objects[c];
        if comp.block_request == r.block_request && comp.block_request_generation == r.block_request_generation
            && comp.block_device == r.block_device && comp.block_device_generation == r.block_device_generation
            && comp.block_range == r.block_range && comp.block_range_generation == r.block_range_generation
            && comp.sequence == r.sequence && comp.status == BlockCompletionStatus::Success
            && comp.completed_bytes == r.byte_len
            && self.find_pending_wait(r.wait, r.wait_generation).is_some() {
            Ok(())
        } else {
            Err("block wait completion attribution mismatch")
        }
    }

    fn check_block_wait_cancellation(
        &self,
        block_wait: BlockWaitId,
        block_wait_generation: Generation,
        reason: WaitCancelReason,
    ) -> (r: Result<(), &'static str>)
        ensures
            r == self.block_wait_cancellation_verdict(block_wait, block_wait_generation, reason),
    {
        if !is_block_io_cancel_reason(reason) {
            return Err("block wait cancellation reason is not a block io reason");
        }
        if exists_match(
            &self.block_waits,
            |x: &BlockWaitRecord| -> (b: bool)
                ensures b == cancellable_block_wait(*self, block_wait, block_wait_generation)(*x)
            {
                x.id == block_wait && x.generation == block_wait_generation
                    && x.state == crate::types::BlockWaitState::Pending
                    && self.find_pending_wait(x.wait, x.wait_generation).is_some()
            },
            Ghost(cancellable_block_wait(*self, block_wait, block_wait_generation)),
        ) {
            Ok(())
        } else {
            Err("block wait generation is missing or not pending")
        }
    }

    fn check_fs_wait_resolution(&self, fs_wait: FsWaitId, fs_wait_generation: Generation) -> (r: Result<(), &'static str>)
        ensures
            r == self.fs_wait_resolution_verdict(fs_wait, fs_wait_generation),
    {
        if exists_match(
            &self.fs_waits,
            |x: &FsWaitRecord| -> (b: bool)
                ensures b == live_fs_wait(*self, fs_wait, fs_wait_generation)(*x)
            {
                x.id == fs_wait && x.generation == fs_wait_generation
                    && x.state == crate::types::FsWaitState::Pending
                    && self.find_pending_wait(x.wait, x.wait_generation).is_some()
            },
            Ghost(live_fs_wait(*self, fs_wait, fs_wait_generation)),
        ) {
            Ok(())
        } else {
            Err("fs wait generation is missing or not pending")
        }
    }

    fn check_grant_capability(
        &self,
        operations: &Vec<String>,
        owner_store: Option<StoreId>,
        owner_store_generation: Option<Generation>,
    ) -> (r: Result<(), &'static str>)
        ensures
            r == self.grant_capability_verdict(operations@, owner_store, owner_store_generation),
    {
        if operations.len() == 0 {
            return Err("grant-capability requires at least one operation");
        }
        match owner_store {
            None => Ok(()),
            Some(store) => match owner_store_generation {
                None => Err("owner store generation is required"),
                Some(generation) => if self.find_store(store, generation).is_some() {
                    Ok(())
                } else {
                    Err("owner store generation is missing")
                },
            },
        }
    }

    /// Preflight of the block commands.
    pub fn preflight_block_command(&self, command: &SemanticCommand) -> (r: Result<(), CommandError>)
        requires
            command_domain(*command) == CommandDomain::Block,
        ensures
            r == self.command_verdict(*command),
    {
        match command {
            SemanticCommand::RecordBlockDeviceObject { block_device, name, device, device_generation, sector_size,
                sector_count, max_transfer_sectors, .. } =>
                lift(self.validate_block_device_object(*block_device, name.as_str(), *device, *device_generation,
                    *sector_size, *sector_count, *max_transfer_sectors)),
            SemanticCommand::RecordBlockRangeObject { block_range, block_device, block_device_generation,
                start_sector, sector_count, .. } =>
                lift(self.validate_block_range_object(*block_range, *block_device, *block_device_generation,
                    *start_sector, *sector_count)),
            SemanticCommand::RecordBlockWait { block_wait, wait, wait_generation, block_request,
                block_request_generation, .. } =>
                lift(self.validate_block_wait(*block_wait, *wait, *wait_generation, *block_request,
                    *block_request_generation)),
            SemanticCommand::ResolveBlockWait { block_wait, block_wait_generation, block_completion,
                block_completion_generation, .. } =>
                lift(self.check_block_wait_resolution(*block_wait, *block_wait_generation, *block_completion,
                    *block_completion_generation)),
            SemanticCommand::CancelBlockWait { block_wait, block_wait_generation, reason, .. } =>
                lift(self.check_block_wait_cancellation(*block_wait, *block_wait_generation, *reason)),
            SemanticCommand::ApplyBlockPendingIoPolicy { policy, block_wait, block_wait_generation, action,
                retry_request, retry_request_generation, errno, retry_attempt, max_retries, .. } =>
                lift(self.validate_block_pending_io_policy(*policy, *block_wait, *block_wait_generation, *action,
                    *retry_request, *retry_request_generation, *errno, *retry_attempt, *max_retries)),
            SemanticCommand::RecordBlockRecoveryBenchmark { benchmark, scenario, cleanup, cleanup_generation,
                io_cleanup, io_cleanup_generation, recovery_start_event, recovery_complete_event,
                cancelled_block_waits, cancelled_wait_tokens, released_dma_buffers, revoked_device_capabilities,
                recovery_nanos, budget_nanos, .. } =>
                lift(self.validate_block_recovery_benchmark(*benchmark, scenario.as_str(), *cleanup,
                    *cleanup_generation, *io_cleanup, *io_cleanup_generation, *recovery_start_event,
                    *recovery_complete_event, *cancelled_block_waits, *cancelled_wait_tokens, *released_dma_buffers,
                    *revoked_device_capabilities, *recovery_nanos, *budget_nanos)),
            _ => Err(CommandError::precondition("preflight handler called with wrong command domain")),
        }
    }

    /// Preflight of the storage commands.
    pub fn preflight_storage_command(&self, command: &SemanticCommand) -> (r: Result<(), CommandError>)
        requires
            command_domain(*command) == CommandDomain::Storage,
        ensures
            r == self.command_verdict(*command),
    {
        match command {
            SemanticCommand::RecordBlockWritePath { write_path, backend, block_request, block_request_generation,
                block_completion, block_completion_generation, payload_digest, .. } =>
                lift(self.validate_block_write_path(*write_path, *backend, *block_request, *block_request_generation,
                    *block_completion, *block_completion_generation, *payload_digest)),
            SemanticCommand::RecordBlockRequestQueue { queue, backend, block_device, block_device_generation,
                depth, entries, .. } =>
                lift(self.validate_block_request_queue(*queue, *backend, *block_device, *block_device_generation,
                    *depth, entries.as_slice())),
            SemanticCommand::RecordBufferCacheObject { buffer_cache_object, block_page_object,
                block_page_object_generation, page, page_dirty_generation, block_offset, byte_len, cache_state,
                coherency_epoch, .. } =>
                lift(self.validate_buffer_cache_object(*buffer_cache_object, *block_page_object,
                    *block_page_object_generation, *page, *page_dirty_generation, *block_offset, *byte_len,
                    *cache_state, *coherency_epoch)),
            SemanticCommand::RecordDirectoryObject { directory_object, file_object, file_object_generation,
                namespace, directory_key, directory_path, entry_name, child_file_key, child_path, entry_kind,
                file_size, content_digest, state, .. } =>
                lift(self.validate_directory_object(*directory_object, *file_object, *file_object_generation,
                    namespace.as_str(), directory_key.as_str(), directory_path.as_str(), entry_name.as_str(),
                    child_file_key.as_str(), child_path.as_str(), *entry_kind, *file_size, *content_digest, *state)),
            SemanticCommand::RecordFsWait { fs_wait, wait, wait_generation, file_handle_capability,
                file_handle_capability_generation, operation, sequence, .. } =>
                lift(self.validate_fs_wait(*fs_wait, *wait, *wait_generation, *file_handle_capability,
                    *file_handle_capability_generation, operation.as_str(), *sequence)),
            SemanticCommand::ResolveFsWait { fs_wait, fs_wait_generation, .. } =>
                lift(self.check_fs_wait_resolution(*fs_wait, *fs_wait_generation)),
            SemanticCommand::CancelFsWait { fs_wait, fs_wait_generation, reason, .. } => {
                if !is_fs_cancel_reason(*reason) {
                    return Err(CommandError::precondition("fs wait cancellation reason is not a filesystem reason"));
                }
                lift(self.check_fs_wait_resolution(*fs_wait, *fs_wait_generation))
            },
            _ => Err(CommandError::precondition("preflight handler called with wrong command domain")),
        }
    }

    /// Preflight of the device I/O commands.
    pub fn preflight_io_command(&self, command: &SemanticCommand) -> (r: Result<(), CommandError>)
        requires
            command_domain(*command) == CommandDomain::Io,
        ensures
            r == self.command_verdict(*command),
    {
        match command {
            SemanticCommand::RecordDescriptorObject { descriptor, queue, queue_generation, slot, access, length, .. } =>
                lift(self.validate_descriptor_object(*descriptor, *queue, *queue_generation, *slot, *access, *length)),
            SemanticCommand::BindDriverStore { binding, driver_store, driver_store_generation, device,
                device_generation, device_capability, device_capability_generation, .. } =>
                lift(self.validate_driver_store_binding(*binding, *driver_store, *driver_store_generation, *device,
                    *device_generation, *device_capability, *device_capability_generation)),
            SemanticCommand::CancelIoWait { io_wait, io_wait_generation, reason } =>
                lift(self.check_io_wait_cancellation(*io_wait, *io_wait_generation, *reason)),
            SemanticCommand::ResolveIoWait { io_wait, io_wait_generation, irq_event, irq_event_generation } =>
                lift(self.check_io_wait_resolution(*io_wait, *io_wait_generation, *irq_event, *irq_event_generation)),
            _ => Err(CommandError::precondition("preflight handler called with wrong command domain")),
        }
    }

    /// Preflight of the network commands.
    pub fn preflight_network_command(&self, command: &SemanticCommand) -> (r: Result<(), CommandError>)
        requires
            command_domain(*command) == CommandDomain::Network,
        ensures
            r == self.command_verdict(*command),
    {
        match command {
            SemanticCommand::RecordEndpointObject { endpoint, socket, socket_generation, local_addr, local_port,
                remote_addr, remote_port, .. } =>
                lift(self.validate_endpoint_object(*endpoint, *socket, *socket_generation, *local_addr, *local_port,
                    *remote_addr, *remote_port)),
            SemanticCommand::ResolveSocketWait { socket_wait, socket_wait_generation, ready_sequence, byte_len } =>
                lift(self.check_socket_wait_resolution(*socket_wait, *socket_wait_generation, *ready_sequence,
                    *byte_len)),
            SemanticCommand::CancelSocketWait { socket_wait, socket_wait_generation, reason } =>
                lift(self.check_socket_wait_cancellation(*socket_wait, *socket_wait_generation, *reason)),
            _ => Err(CommandError::precondition("preflight handler called with wrong command domain")),
        }
    }

    /// Preflight of the lifecycle commands: capabilities and wait tokens.
    pub fn preflight_lifecycle_command(&self, command: &SemanticCommand) -> (r: Result<(), CommandError>)
        requires
            command_domain(*command) == CommandDomain::Lifecycle,
        ensures
            r == self.command_verdict(*command),
    {
        match command {
            SemanticCommand::GrantCapability { operations, owner_store, owner_store_generation, .. } =>
                lift(self.check_grant_capability(operations, *owner_store, *owner_store_generation)),
            SemanticCommand::RevokeCapability { cap } => {
                let found = self.find_capability(*cap);
                proof { lemma_first_match_facts(self.capabilities@, capability_id_is(*cap)); }
                if found.is_some() {
                    Ok(())
                } else {
                    Err(CommandError::precondition("capability does not exist"))
                }
            },
            SemanticCommand::ResolveWait { wait, .. } | SemanticCommand::CancelWait { wait, .. } => {
                let id = *wait;
                if exists_match(
                    &self.waits,
                    |x: &WaitRecord| -> (b: bool)
                        ensures b == pending_wait_with_id(id)(*x)
                    { x.id == id && x.state == WaitState::Pending },
                    Ghost(pending_wait_with_id(id)),
                ) {
                    Ok(())
                } else {
                    Err(CommandError::precondition("wait is not pending"))
                }
            },
            SemanticCommand::BeginCleanup { cleanup, store, generation, .. } =>
                lift(self.check_begin_cleanup(*cleanup, *store, *generation)),
            SemanticCommand::ApplyCleanupStep { cleanup, .. } | SemanticCommand::CommitCleanup { cleanup } =>
                lift(self.check_cleanup_step(*cleanup)),
            SemanticCommand::CreateWait { owner_task, owner_store, owner_store_generation, blockers, deadline, .. } =>
                lift(self.check_create_wait(*owner_task, *owner_store, *owner_store_generation, blockers, *deadline)),
            SemanticCommand::BlockActivationOnWait { activation_wait, activation, activation_generation, wait,
                blockers, deadline, .. } =>
                lift(self.check_block_activation_on_wait(*activation_wait, *activation, *activation_generation, *wait,
                    blockers, *deadline)),
            SemanticCommand::CancelActivationWait { activation_wait, activation_wait_generation, wait_generation, .. } =>
                lift(self.check_cancel_activation_wait(*activation_wait, *activation_wait_generation,
                    *wait_generation)),
            SemanticCommand::CleanupActivationForStoreFault { cleanup, store, store_generation, activation,
                activation_generation, wait, wait_generation, reason, .. } =>
                lift(self.check_activation_store_fault_cleanup(*cleanup, *store, *store_generation, *activation,
                    *activation_generation, *wait, *wait_generation, reason.as_str())),
            _ => Err(CommandError::precondition("preflight handler called with wrong command domain")),
        }
    }

    /// Checks whether `command` may be applied to the graph: `Ok` when it may, otherwise the
    /// precondition it fails.
    pub fn preflight_command(&self, command: &SemanticCommand) -> (r: Result<(), CommandError>)
        ensures
            r == self.command_verdict(*command),
    {
        match command.domain() {
            CommandDomain::Block => self.preflight_block_command(command),
            CommandDomain::Storage => self.preflight_storage_command(command),
            CommandDomain::Io => self.preflight_io_command(command),
            CommandDomain::Network => self.preflight_network_command(command),
            CommandDomain::Lifecycle => self.preflight_lifecycle_command(command),
            CommandDomain::Scheduler | CommandDomain::Display => match command {
                SemanticCommand::RegisterHart { hart, hardware_id, label, boot } =>
                    lift(self.check_register_hart(*hart, *hardware_id, label.as_str(), *boot)),
                SemanticCommand::ClearHartCurrentActivation { hart, hart_generation, activation,
                    activation_generation, reason } =>
                    lift(self.check_clear_hart_current_activation(*hart, *hart_generation, *activation,
                        *activation_generation, reason.as_str())),
                SemanticCommand::BindRunnableQueueOwner { queue, queue_generation, hart, hart_generation } =>
                    lift(self.check_bind_runnable_queue_owner(*queue, *queue_generation, *hart, *hart_generation)),
                SemanticCommand::DequeueRunnable { queue, activation } =>
                    lift(self.check_dequeue_runnable(*queue, *activation)),
                SemanticCommand::CreateRuntimeActivation { activation, owner_task, owner_task_generation, owner_store,
                    owner_store_generation, code_object } =>
                    lift(self.check_create_runtime_activation(*activation, *owner_task, *owner_task_generation,
                        *owner_store, *owner_store_generation, *code_object)),
                SemanticCommand::EnqueueRunnable { queue, activation, activation_generation } =>
                    lift(self.check_enqueue_runnable(*queue, *activation, *activation_generation)),
                SemanticCommand::CreateActivationContext { context, activation, activation_generation } =>
                    lift(self.check_activation_context(*context, *activation, *activation_generation)),
                SemanticCommand::CaptureSavedContext { saved_context, context, context_generation, pc, sp } =>
                    lift(self.check_capture_saved_context(*saved_context, *context, *context_generation, *pc, *sp)),
                SemanticCommand::RecordTimerInterrupt { interrupt, timer_epoch, hart, hart_generation,
                    target_activation, target_activation_generation } =>
                    lift(self.check_timer_interrupt(*interrupt, *timer_epoch, *hart, *hart_generation,
                        *target_activation, *target_activation_generation)),
                SemanticCommand::RecordIpiEvent { ipi, source_hart, source_hart_generation, target_hart,
                    target_hart_generation, reason } =>
                    lift(self.check_ipi_event(*ipi, *source_hart, *source_hart_generation, *target_hart,
                        *target_hart_generation, reason.as_str())),
                SemanticCommand::PreemptActivation { preemption, activation, activation_generation, timer_interrupt,
                    timer_interrupt_generation, queue } =>
                    lift(self.check_preempt_activation(*preemption, *activation, *activation_generation,
                        *timer_interrupt, *timer_interrupt_generation, *queue)),
                SemanticCommand::SavePreemptedContext { context, saved_context, preemption, preemption_generation,
                    pc, sp } =>
                    lift(self.check_save_preempted_context(*context, *saved_context, *preemption,
                        *preemption_generation, *pc, *sp)),
                SemanticCommand::BindHartCurrentActivation { hart, hart_generation, activation,
                    activation_generation } =>
                    lift(self.check_bind_hart_current_activation(*hart, *hart_generation, *activation,
                        *activation_generation)),
                SemanticCommand::RecordSchedulerDecision { decision, queue, queue_generation, selected_activation,
                    selected_activation_generation, reason } =>
                    lift(self.check_scheduler_decision(*decision, *queue, *queue_generation, *selected_activation,
                        *selected_activation_generation, reason.as_str())),
                SemanticCommand::SetHartState { hart, hart_generation, reason, .. } => {
                    if reason.unicode_len() == 0 {
                        return Err(CommandError::precondition("hart state reason is empty"));
                    }
                    let (id, generation) = (*hart, *hart_generation);
                    if exists_match(
                        &self.harts,
                        |x: &HartRecord| -> (b: bool)
                            ensures b == hart_is(id, generation)(*x)
                        { x.id == id && x.generation == generation },
                        Ghost(hart_is(id, generation)),
                    ) {
                        Ok(())
                    } else {
                        Err(CommandError::precondition("hart generation is missing"))
                    }
                },
                SemanticCommand::CreateRunnableQueue { queue, label } => {
                    if *queue == 0 {
                        return Err(CommandError::precondition("runnable queue id=0 is invalid"));
                    }
                    if label.unicode_len() == 0 {
                        return Err(CommandError::precondition("runnable queue label is empty"));
                    }
                    let id = *queue;
                    if exists_match(
                        &self.runnable_queues,
                        |x: &RunnableQueueRecord| -> (b: bool)
                            ensures b == runnable_queue_id_is(id)(*x)
                        { x.id == id },
                        Ghost(runnable_queue_id_is(id)),
                    ) {
                        Err(CommandError::precondition("runnable queue already exists"))
                    } else {
                        Ok(())
                    }
                },
                SemanticCommand::RecordCrossHartSchedulerDecision { cross_decision, scheduler_decision,
                    scheduler_decision_generation, deciding_hart, deciding_hart_generation, target_hart,
                    target_hart_generation, reason, .. } =>
                    lift(self.validate_cross_hart_scheduler_decision(*cross_decision, *scheduler_decision,
                        *scheduler_decision_generation, *deciding_hart, *deciding_hart_generation, *target_hart,
                        *target_hart_generation, reason.as_str())),
                SemanticCommand::RecordFramebufferDirtyRegion { framebuffer_dirty_region, owner_store,
                    owner_store_generation, framebuffer_write, framebuffer_write_generation, framebuffer_flush_region,
                    framebuffer_flush_region_generation, state, x, y, width, height, byte_offset, byte_len,
                    payload_digest, .. } =>
                    lift(self.validate_framebuffer_dirty_region(*framebuffer_dirty_region, *owner_store,
                        *owner_store_generation, *framebuffer_write, *framebuffer_write_generation,
                        *framebuffer_flush_region, *framebuffer_flush_region_generation, *state, *x, *y, *width,
                        *height, *byte_offset, *byte_len, *payload_digest)),
                SemanticCommand::CleanupDisplay { cleanup, owner_store, owner_store_generation, display_capability,
                    display_capability_generation, display, display_generation, framebuffer, framebuffer_generation,
                    reason, .. } => {
                    let t = DisplayCleanupTarget {
                        owner_store: *owner_store,
                        owner_store_generation: *owner_store_generation,
                        display_capability: *display_capability,
                        display_capability_generation: *display_capability_generation,
                        display: *display,
                        display_generation: *display_generation,
                        framebuffer: *framebuffer,
                        framebuffer_generation: *framebuffer_generation,
                    };
                    lift(self.validate_display_cleanup(*cleanup, &t, reason.as_str()))
                },
                SemanticCommand::RecordFramebufferBenchmark { benchmark, scenario, targets, sample, .. } =>
                    lift(self.validate_framebuffer_benchmark(*benchmark, scenario.as_str(), *targets, *sample)),
                _ => Err(CommandError::precondition("preflight handler called with wrong command domain")),
            },
        }
    }
}


/// What applying a lifecycle command did: applied it (and whether it changed the graph), or
/// passed it on to the next handler.
pub enum ApplyDispatch {
    Applied(bool),
    Next(Box<SemanticCommand>),
}

/// The first pending wait token with some id is also the first pending one with that id and
/// its own generation.
proof fn lemma_first_pending_wait_generation(waits: Seq<WaitRecord>, wait: WaitId, k: int)
    requires
        first_match(waits, pending_wait_with_id(wait)) == Some(k),
    ensures
        0 <= k < waits.len(),
        first_match(waits, pending_wait_is(wait, waits[k].generation)) == Some(k),
{
    lemma_first_match_facts(waits, pending_wait_with_id(wait));
    let g = waits[k].generation;
    assert forall|j: int| 0 <= j < k implies !pending_wait_is(wait, g)(#[trigger] waits[j]) by {
        assert(!pending_wait_with_id(wait)(waits[j]));
    }
    lemma_first_match_at(waits, pending_wait_is(wait, g), k);
}

/// Applies the lifecycle commands that this graph applies itself; every other command is
/// handed back unchanged for the next handler.
///
/// - `GrantCapability` adds a live ledger entry under a fresh id when the grant's preflight
///   verdict accepts and an id is left; otherwise it reports `Applied(false)` and changes nothing.
/// - `RevokeCapability` revokes a live ledger entry; `Applied` says whether one was live.
/// - `BlockActivationOnWait`, `CancelActivationWait` and `CleanupActivationForStoreFault` are
///   applied when their preflight verdict accepts, and `Applied` says whether they were.
/// - `CreateWait` adds a pending wait token with the command's details and reports
///   `Applied(true)`.
/// - `BeginCleanup` begins a cleanup transaction and `ApplyCleanupStep` logs a step of one; both
///   report `Applied(true)`. `CommitCleanup` commits a begun cleanup transaction; `Applied` says
///   whether there was one.
/// - `ResolveWait` and `CancelWait` resolve or cancel the first pending wait token with that id
///   (nothing changes when there is none), and always report `Applied(true)`.
pub fn apply_lifecycle_command(graph: &mut SemanticGraph, command: SemanticCommand) -> (d: ApplyDispatch)
    requires
        old(graph).event_log.next_event_id < u64::MAX,
    ensures
        match command {
            SemanticCommand::GrantCapability { subject, object_ref, operations, owner_store,
                owner_store_generation, .. } => {
                let m = max_capability_id(old(graph).capabilities@);
                let ok = old(graph).grant_capability_verdict(operations@, owner_store, owner_store_generation) is Ok
                    && m < u64::MAX;
                &&& d == ApplyDispatch::Applied(ok)
                &&& ok ==> granted_capability(*old(graph), *final(graph), granted_record((m + 1) as u64, subject,
                    object_ref, operations, owner_store, owner_store_generation))
                &&& !ok ==> *final(graph) == *old(graph)
            },
            SemanticCommand::RevokeCapability { cap } => {
                let live = ledger_live(old(graph).capabilities@, cap);
                &&& d == ApplyDispatch::Applied(live)
                &&& live ==> revoked_capability_in(*old(graph), *final(graph), cap, EventDomain::Command)
                &&& !live ==> *final(graph) == *old(graph)
            },
            SemanticCommand::ResolveWait { wait, .. } => {
                &&& d == ApplyDispatch::Applied(true)
                &&& match first_match(old(graph).waits@, pending_wait_with_id(wait)) {
                    Some(k) => resolved_wait_token(*old(graph), *final(graph), k),
                    None => *final(graph) == *old(graph),
                }
            },
            SemanticCommand::CancelWait { wait, errno, reason } => {
                &&& d == ApplyDispatch::Applied(true)
                &&& match first_match(old(graph).waits@, pending_wait_with_id(wait)) {
                    Some(k) => cancelled_wait_token(*old(graph), *final(graph), k, errno, reason),
                    None => *final(graph) == *old(graph),
                }
            },
            SemanticCommand::CreateWait { wait, owner_task, owner_store, owner_store_generation, kind, generation,
                blockers, deadline, restart_policy, saved_context } => {
                &&& d == ApplyDispatch::Applied(true)
                &&& final(graph).agrees_except(old(graph), set![Table::EventLog, Table::Waits])
                &&& final(graph).waits@ == old(graph).waits@.push(created_wait_record(wait, generation, kind, blockers,
                    owner_task, owner_store, owner_store_generation, deadline, restart_policy, saved_context))
                &&& appended_event(old(graph).event_log, final(graph).event_log, EventDomain::Wait,
                    EventKind::WaitCreated { wait, generation })
            },
            SemanticCommand::BeginCleanup { cleanup, store, generation, reason } => {
                &&& d == ApplyDispatch::Applied(true)
                &&& began_cleanup(*old(graph), *final(graph), cleanup, store, generation, reason@)
            },
            SemanticCommand::ApplyCleanupStep { cleanup, step, target, observed_generation } => {
                &&& d == ApplyDispatch::Applied(true)
                &&& final(graph).agrees_except(old(graph), set![Table::EventLog])
                &&& appended_labeled_event(*old(graph), *final(graph), EventDomain::Command,
                    EventKind::CleanupStepApplied { cleanup, observed_generation }, seq![step@, target@])
            },
            SemanticCommand::BlockActivationOnWait { activation_wait, activation, activation_generation, wait, kind,
                blockers, deadline, restart_policy, note } => {
                let ok = old(graph).block_activation_on_wait_verdict(activation_wait, activation,
                    activation_generation, wait, blockers@, deadline) is Ok;
                &&& d == ApplyDispatch::Applied(ok)
                &&& ok ==> blocked_activation_on_wait(*old(graph), *final(graph), activation_wait, activation,
                    activation_generation, wait, kind, blockers, deadline, restart_policy, note@)
                &&& !ok ==> *final(graph) == *old(graph)
            },
            SemanticCommand::CancelActivationWait { activation_wait, activation_wait_generation, wait_generation,
                errno, reason, .. } => {
                let ok = old(graph).cancel_activation_wait_verdict(activation_wait, activation_wait_generation,
                    wait_generation) is Ok;
                &&& d == ApplyDispatch::Applied(ok)
                &&& ok ==> cancelled_activation_wait(*old(graph), *final(graph), activation_wait,
                    activation_wait_generation, wait_generation, errno, reason)
                &&& !ok ==> *final(graph) == *old(graph)
            },
            SemanticCommand::CleanupActivationForStoreFault { cleanup, store, store_generation, activation,
                activation_generation, wait, wait_generation, reason, note } => {
                let ok = old(graph).activation_store_fault_cleanup_verdict(cleanup, store, store_generation,
                    activation, activation_generation, wait, wait_generation, reason@) is Ok;
                &&& d == ApplyDispatch::Applied(ok)
                &&& ok ==> cleaned_up_activation_for_store_fault(*old(graph), *final(graph), cleanup, store,
                    store_generation, activation, activation_generation, wait, wait_generation, reason@, note@)
                &&& !ok ==> *final(graph) == *old(graph)
            },
            SemanticCommand::CommitCleanup { cleanup } => {
                &&& d == ApplyDispatch::Applied(any_match(old(graph).transactions@, begun_transaction_is(cleanup)))
                &&& match first_match(old(graph).transactions@, begun_transaction_is(cleanup)) {
                    Some(k) => committed_transaction(*old(graph), *final(graph), k),
                    None => *final(graph) == *old(graph),
                }
            },
            _ => d == ApplyDispatch::Next(Box::new(command)) && *final(graph) == *old(graph),
        },
{
    match command {
        SemanticCommand::GrantCapability { subject, object_ref, operations, owner_store, owner_store_generation, .. } => {
            if graph.check_grant_capability(&operations, owner_store, owner_store_generation).is_err() {
                return ApplyDispatch::Applied(false);
            }
            let granted = graph.grant_ledger_entry(subject, object_ref, operations, owner_store, owner_store_generation);
            ApplyDispatch::Applied(granted.is_some())
        },
        SemanticCommand::RevokeCapability { cap } => {
            let changed = graph.revoke_live_capability(cap, EventDomain::Command);
            ApplyDispatch::Applied(changed)
        },
        SemanticCommand::ResolveWait { wait, .. } => {
            if let Some(k) = graph.find_pending_wait_with_id(wait) {
                let generation = graph.waits[k].generation;
                proof { lemma_first_pending_wait_generation(graph.waits@, wait, k as int); }
                graph.resolve_wait_token(wait, generation);
            }
            ApplyDispatch::Applied(true)
        },
        SemanticCommand::CancelWait { wait, errno, reason } => {
            if let Some(k) = graph.find_pending_wait_with_id(wait) {
                let generation = graph.waits[k].generation;
                proof { lemma_first_pending_wait_generation(graph.waits@, wait, k as int); }
                graph.cancel_wait_token(wait, generation, errno, reason);
            }
            ApplyDispatch::Applied(true)
        },
        SemanticCommand::CreateWait { wait, owner_task, owner_store, owner_store_generation, kind, generation,
            blockers, deadline, restart_policy, saved_context } => {
            graph.record_wait_created(wait, generation, kind, blockers, owner_task, owner_store, owner_store_generation,
                deadline, restart_policy, saved_context);
            ApplyDispatch::Applied(true)
        },
        SemanticCommand::BeginCleanup { cleanup, store, generation, reason } => {
            graph.begin_cleanup_transaction(cleanup, store, generation, reason.as_str());
            ApplyDispatch::Applied(true)
        },
        SemanticCommand::ApplyCleanupStep { cleanup, step, target, observed_generation } => {
            graph.record_cleanup_step(cleanup, step.as_str(), target.as_str(), observed_generation);
            ApplyDispatch::Applied(true)
        },
        SemanticCommand::BlockActivationOnWait { activation_wait, activation, activation_generation, wait, kind,
            blockers, deadline, restart_policy, note } => {
            let ok = graph.block_activation_on_wait_with_id(activation_wait, activation, activation_generation, wait,
                kind, blockers, deadline, restart_policy, note.as_str());
            ApplyDispatch::Applied(ok)
        },
        SemanticCommand::CancelActivationWait { activation_wait, activation_wait_generation, wait_generation, errno,
            reason, .. } => {
            let ok = graph.cancel_activation_wait(activation_wait, activation_wait_generation, wait_generation, errno,
                reason);
            ApplyDispatch::Applied(ok)
        },
        SemanticCommand::CleanupActivationForStoreFault { cleanup, store, store_generation, activation,
            activation_generation, wait, wait_generation, reason, note } => {
            let ok = graph.cleanup_activation_for_store_fault_with_id(cleanup, store, store_generation, activation,
                activation_generation, wait, wait_generation, reason.as_str(), note.as_str());
            ApplyDispatch::Applied(ok)
        },
        SemanticCommand::CommitCleanup { cleanup } => {
            let committed = graph.commit_transaction(cleanup);
            ApplyDispatch::Applied(committed)
        },
        other => ApplyDispatch::Next(Box::new(other)),
    }
}

impl SemanticGraph {
    fn find_pending_wait_with_id(&self, wait: WaitId) -> (r: Option<usize>)
        ensures
            crate::search::opt_index(r) == first_match(self.waits@, pending_wait_with_id(wait)),
            r matches Some(k) ==> k < self.waits@.len(),
    {
        let r = find_first(
            &self.waits,
            |x: &WaitRecord| -> (b: bool)
                ensures b == pending_wait_with_id(wait)(*x)
            { x.id == wait && x.state == WaitState::Pending },
            Ghost(pending_wait_with_id(wait)),
        );
        proof { lemma_first_match_facts(self.waits@, pending_wait_with_id(wait)); }
        r
    }
}

/// No two fs waits of `g` share an id and generation.
pub open spec fn fs_wait_ids_unique(g: SemanticGraph) -> bool {
    forall|i: int, j: int| 0 <= i < j < g.fs_waits@.len() ==>
        !((#[trigger] g.fs_waits@[i]).id == (#[trigger] g.fs_waits@[j]).id
            && g.fs_waits@[i].generation == g.fs_waits@[j].generation)
}

/// The network preflight of recording an endpoint accepts exactly when recording it would
/// (`record_endpoint_object_with_id` succeeds exactly when `endpoint_object_verdict` accepts).
pub proof fn lemma_endpoint_preflight_matches_recording(
    g: SemanticGraph,
    endpoint: EndpointObjectId,
    socket: SocketObjectId,
    socket_generation: Generation,
    local_addr: [u8; 4],
    local_port: u16,
    remote_addr: [u8; 4],
    remote_port: u16,
    note: String,
)
    ensures
        (g.command_verdict(SemanticCommand::RecordEndpointObject { endpoint, socket, socket_generation, local_addr,
            local_port, remote_addr, remote_port, note }) is Ok)
            == (g.endpoint_object_verdict(endpoint, socket, socket_generation, local_addr, local_port, remote_addr,
                remote_port) is Ok),
{
}

/// With fs wait ids unique, the storage preflight of an fs-wait cancellation accepts exactly
/// when `cancel_fs_wait` succeeds, and a reason that is not a file-system reason is refused as
/// such.
pub proof fn lemma_fs_wait_cancellation_preflight_matches(
    g: SemanticGraph,
    fs_wait: FsWaitId,
    fs_wait_generation: Generation,
    errno: i32,
    reason: WaitCancelReason,
    note: String,
)
    requires
        fs_wait_ids_unique(g),
    ensures
        (g.command_verdict(SemanticCommand::CancelFsWait { fs_wait, fs_wait_generation, errno, reason, note }) is Ok)
            == (g.cancel_fs_wait_verdict(fs_wait, fs_wait_generation, reason) is Some),
        !fs_cancel_reason(reason) ==> g.command_verdict(SemanticCommand::CancelFsWait { fs_wait, fs_wait_generation,
            errno, reason, note }) == Err::<(), CommandError>(
            CommandError::Precondition("fs wait cancellation reason is not a filesystem reason")),
{
    let fw = g.fs_waits@;
    lemma_first_match_facts(fw, pending_fs_wait_is(fs_wait, fs_wait_generation));
    if any_match(fw, live_fs_wait(g, fs_wait, fs_wait_generation)) {
        let j = choose|j: int| 0 <= j < fw.len() && #[trigger] live_fs_wait(g, fs_wait, fs_wait_generation)(fw[j]);
        assert(pending_fs_wait_is(fs_wait, fs_wait_generation)(fw[j]));
        let i = first_match(fw, pending_fs_wait_is(fs_wait, fs_wait_generation))->0;
        if i < j {
            assert(fw[i].id == fw[j].id && fw[i].generation == fw[j].generation);
        } else if j < i {
            assert(!pending_fs_wait_is(fs_wait, fs_wait_generation)(fw[j]));
        }
        assert(i == j);
        lemma_first_match_facts(g.waits@, pending_wait_is(fw[i].wait, fw[i].wait_generation));
    }
    if g.resolve_fs_wait_verdict(fs_wait, fs_wait_generation) is Some {
        let i = first_match(fw, pending_fs_wait_is(fs_wait, fs_wait_generation))->0;
        lemma_first_match_facts(g.waits@, pending_wait_is(fw[i].wait, fw[i].wait_generation));
        assert(live_fs_wait(g, fs_wait, fs_wait_generation)(fw[i]));
    }
}

} // verus!
