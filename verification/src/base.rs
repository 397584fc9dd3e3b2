use vstd::prelude::*;
use crate::types::{
    BlockCompletionObjectId, BlockCompletionObjectState, BlockCompletionStatus,
    BlockDeviceObjectId, BlockRangeObjectId, BlockRequestObjectId, BlockRequestObjectState,
    BlockRequestOperation, ContractObjectKind, ContractObjectRef, DeviceObjectId,
    DeviceObjectState, DirectoryObjectId, FakeBlockBackendObjectId, FakeBlockBackendObjectState,
    FileHandleCapabilityId, FileHandleCapabilityState, FileObjectId, FileObjectState, Generation,
    QueueObjectId, QueueObjectState, ResourceId, ResourceKind, SemanticWaitKind, StoreId,
    StoreState, WaitCancelReason, WaitId, WaitState,
};

verus! {

/// A hardware resource that a device object may be backed by.
pub struct ResourceRecord {
    pub id: ResourceId,
    pub generation: Generation,
    pub kind: ResourceKind,
    pub live: bool,
}

/// A registered device object.
pub struct DeviceObjectRecord {
    pub id: DeviceObjectId,
    pub generation: Generation,
    pub class: String,
    pub resource: ResourceId,
    pub resource_generation: Generation,
    pub state: DeviceObjectState,
}

/// A device queue with a fixed number of descriptor slots.
pub struct QueueObjectRecord {
    pub id: QueueObjectId,
    pub generation: Generation,
    pub depth: u32,
    pub state: QueueObjectState,
}

/// A store (a loaded package instance) and its lifecycle state.
pub struct StoreRecord {
    pub id: StoreId,
    pub generation: Generation,
    pub role: String,
    pub package: String,
    pub state: StoreState,
}

/// A semantic wait token.
pub struct WaitRecord {
    pub id: WaitId,
    pub generation: Generation,
    pub kind: SemanticWaitKind,
    pub blockers: Vec<ContractObjectRef>,
    pub owner_store: Option<StoreId>,
    pub owner_store_generation: Option<Generation>,
    pub owner_task: Option<crate::types::TaskId>,
    /// When the wait times out, if it has a deadline.
    pub deadline: Option<u64>,
    pub restart_policy: crate::types::WaitRestartPolicy,
    /// The saved register state to resume the waiter from, if any.
    pub saved_context: Option<crate::types::SavedContextId>,
    pub state: WaitState,
    pub cancel_reason: Option<WaitCancelReason>,
    pub errno: Option<i32>,
}

/// A block request submitted against a block range.
pub struct BlockRequestObjectRecord {
    pub id: BlockRequestObjectId,
    pub generation: Generation,
    pub block_device: BlockDeviceObjectId,
    pub block_device_generation: Generation,
    pub block_range: BlockRangeObjectId,
    pub block_range_generation: Generation,
    pub operation: BlockRequestOperation,
    pub sequence: u64,
    pub byte_len: u64,
    pub state: BlockRequestObjectState,
}

/// The completion of a block request.
pub struct BlockCompletionObjectRecord {
    pub id: BlockCompletionObjectId,
    pub generation: Generation,
    pub block_request: BlockRequestObjectId,
    pub block_request_generation: Generation,
    pub block_device: BlockDeviceObjectId,
    pub block_device_generation: Generation,
    pub block_range: BlockRangeObjectId,
    pub block_range_generation: Generation,
    pub sequence: u64,
    pub completed_bytes: u64,
    pub status: BlockCompletionStatus,
    pub state: BlockCompletionObjectState,
}

/// A deterministic in-memory block backend bound to a block device.
pub struct FakeBlockBackendObjectRecord {
    pub id: FakeBlockBackendObjectId,
    pub generation: Generation,
    pub block_device: BlockDeviceObjectId,
    pub block_device_generation: Generation,
    pub read_only: bool,
    pub deterministic_seed: u64,
    pub state: FakeBlockBackendObjectState,
}

/// A materialized file.
pub struct FileObjectRecord {
    pub id: FileObjectId,
    pub generation: Generation,
    pub namespace: String,
    pub file_key: String,
    pub path: String,
    pub file_size: u64,
    pub content_digest: u64,
    pub state: FileObjectState,
}

/// A store's permission to perform one operation on a file handle.
pub struct FileHandleCapabilityRecord {
    pub id: FileHandleCapabilityId,
    pub generation: Generation,
    pub owner_store: StoreId,
    pub owner_store_generation: Generation,
    pub file_object: FileObjectId,
    pub file_object_generation: Generation,
    pub directory_object: DirectoryObjectId,
    pub directory_object_generation: Generation,
    pub operation: String,
    pub byte_len: u64,
    pub state: FileHandleCapabilityState,
}

impl FileHandleCapabilityRecord {
    pub open spec fn spec_object_ref(&self) -> ContractObjectRef {
        ContractObjectRef {
            kind: ContractObjectKind::FileHandleCapability,
            id: self.id,
            generation: self.generation,
        }
    }

    /// The reference by which waits name this capability.
    #[verifier::when_used_as_spec(spec_object_ref)]
    pub fn object_ref(&self) -> (r: ContractObjectRef)
        ensures
            r == self.spec_object_ref(),
    {
        ContractObjectRef::new(ContractObjectKind::FileHandleCapability, self.id, self.generation)
    }
}

} // verus!

verus! {

/// A hart (hardware thread) known to the scheduler.
pub struct HartRecord {
    pub id: crate::types::HartId,
    pub generation: Generation,
    /// The platform's own number for this hart.
    pub hardware_id: u64,
    pub label: String,
    /// Whether this is the hart the system booted on.
    pub boot: bool,
    pub state: crate::types::HartState,
    /// The activation running on this hart, with its generation.
    pub current_activation: Option<crate::types::ActivationId>,
    pub current_activation_generation: Option<Generation>,
}

/// A scheduler decision that selected an activation from a runnable queue.
pub struct SchedulerDecisionRecord {
    pub id: crate::types::SchedulerDecisionId,
    pub generation: Generation,
    pub queue: crate::types::RunnableQueueId,
    pub queue_generation: Generation,
    pub selected_activation: crate::types::ActivationId,
    pub selected_activation_generation: Generation,
    pub state: crate::types::SchedulerDecisionState,
}

/// A runnable queue, optionally owned by a hart.
pub struct RunnableQueueRecord {
    pub id: crate::types::RunnableQueueId,
    pub generation: Generation,
    pub owner_hart: Option<crate::types::HartId>,
    pub owner_hart_generation: Option<Generation>,
    pub state: crate::types::RunnableQueueState,
    /// The activations waiting in this queue, in queue order.
    pub entries: Vec<RunnableQueueEntry>,
}

/// A task known to the graph.
pub struct TaskRecord {
    pub id: crate::types::TaskId,
    pub generation: Generation,
    pub state: crate::types::TaskState,
}

/// One run of a task's code, possibly owned by a store and queued on a runnable queue.
pub struct RuntimeActivationRecord {
    pub id: crate::types::ActivationId,
    pub generation: Generation,
    pub owner_task: crate::types::TaskId,
    pub owner_task_generation: Generation,
    pub owner_store: Option<StoreId>,
    pub owner_store_generation: Option<Generation>,
    pub state: crate::types::RuntimeActivationState,
    pub runnable_queue: Option<crate::types::RunnableQueueId>,
    pub runnable_queue_generation: Option<Generation>,
}

/// A wait of an endpoint for its socket to become readable or writable.
pub struct SocketWaitRecord {
    pub id: crate::types::SocketWaitId,
    pub generation: Generation,
    pub wait_kind: crate::types::SemanticWaitKind,
    pub state: crate::types::SocketWaitState,
}

/// A wait of a driver for a device interrupt.
pub struct IoWaitRecord {
    pub id: crate::types::IoWaitId,
    pub generation: Generation,
    /// The wait token the driver waits on, with its generation.
    pub wait: crate::types::WaitId,
    pub wait_generation: Generation,
    pub device: crate::types::DeviceObjectId,
    pub device_generation: Generation,
    pub driver_store: StoreId,
    pub driver_store_generation: Generation,
    /// What the wait is blocked on, such as an interrupt line.
    pub blocker: crate::types::ContractObjectRef,
    pub state: crate::types::IoWaitState,
}

/// A device interrupt taken on an interrupt line, attributed to a device and its driver.
pub struct IrqEventRecord {
    pub id: crate::types::IrqEventId,
    pub generation: Generation,
    pub irq_line: u64,
    pub irq_line_generation: Generation,
    pub device: crate::types::DeviceObjectId,
    pub device_generation: Generation,
    pub driver_store: StoreId,
    pub driver_store_generation: Generation,
    pub state: crate::types::IrqEventState,
}

/// The register context of one runtime activation generation.
pub struct ActivationContextRecord {
    pub id: crate::types::ActivationContextId,
    pub generation: Generation,
    pub activation: crate::types::ActivationId,
    pub activation_generation: Generation,
    pub state: crate::types::ActivationContextState,
    /// The saved register state this context currently holds, if any.
    pub current_saved_context: Option<crate::types::SavedContextId>,
}

/// Register state captured from an activation context.
pub struct SavedContextRecord {
    pub id: crate::types::SavedContextId,
    pub context: crate::types::ActivationContextId,
    pub context_generation: Generation,
    pub pc: u64,
    pub sp: u64,
}

/// A timer interrupt taken on a hart, numbered by its timer epoch.
pub struct TimerInterruptRecord {
    pub id: crate::types::TimerInterruptId,
    pub generation: Generation,
    pub timer_epoch: u64,
    pub hart: crate::types::HartId,
    pub hart_generation: Generation,
    /// The activation the interrupt targets, with its generation.
    pub target_activation: Option<crate::types::ActivationId>,
    pub target_activation_generation: Option<Generation>,
}

/// The preemption of a running activation by a timer interrupt; the activation's generation
/// moves on from `activation_generation` to `activation_generation_after`.
pub struct PreemptionRecord {
    pub id: crate::types::PreemptionId,
    pub generation: Generation,
    pub activation: crate::types::ActivationId,
    pub activation_generation: Generation,
    pub activation_generation_after: Generation,
    pub state: crate::types::PreemptionState,
}

/// An inter-processor interrupt sent from one hart to another.
pub struct IpiEventRecord {
    pub id: crate::types::IpiEventId,
    pub generation: Generation,
    pub source_hart: crate::types::HartId,
    pub source_hart_generation: Generation,
    pub target_hart: crate::types::HartId,
    pub target_hart_generation: Generation,
}

/// A runtime activation blocked on a wait token.
pub struct ActivationWaitRecord {
    pub id: crate::types::ActivationWaitId,
    pub generation: Generation,
    pub activation: crate::types::ActivationId,
    pub activation_generation: Generation,
    pub wait: crate::types::WaitId,
    pub wait_generation: Generation,
    pub state: crate::types::ActivationWaitState,
}

/// The cleanup of a runtime activation after its store faulted.
pub struct ActivationCleanupRecord {
    pub id: crate::types::ActivationCleanupId,
    pub store: StoreId,
    pub store_generation: Generation,
    pub activation: crate::types::ActivationId,
    pub activation_generation: Generation,
    /// The store-owned wait token the activation was blocked on, with its generation.
    pub wait: Option<crate::types::WaitId>,
    pub wait_generation: Option<Generation>,
}

/// A transaction of the graph, such as the cleanup of a store.
pub struct SemanticTransactionRecord {
    pub id: crate::types::TransactionId,
    pub label: String,
    pub store: Option<StoreId>,
    pub task: Option<crate::types::TaskId>,
    pub state: crate::types::TransactionState,
    pub generation: Generation,
}

/// One activation waiting in a runnable queue.
#[derive(Clone, Copy, Debug, PartialEq, Eq, Structural)]
pub struct RunnableQueueEntry {
    pub activation: crate::types::ActivationId,
    pub activation_generation: Generation,
}

/// Attribution of an event to the hart it concerns.
pub struct HartEventAttributionRecord {
    pub id: crate::types::HartEventAttributionId,
    pub hart: crate::types::HartId,
    pub hart_generation: Generation,
    pub event: crate::types::EventId,
    pub event_kind: String,
    pub activation: Option<crate::types::ActivationId>,
    pub activation_generation: Option<Generation>,
    pub note: String,
}

/// A socket created through a network stack adapter.
pub struct SocketObjectRecord {
    pub id: crate::types::SocketObjectId,
    pub generation: Generation,
    pub adapter: crate::types::NetworkStackAdapterId,
    pub adapter_generation: Generation,
    pub owner_store: StoreId,
    pub owner_store_generation: Generation,
    pub family: String,
    pub transport: String,
    pub state: crate::types::SocketObjectState,
}

/// A network stack adapter.
pub struct NetworkStackAdapterRecord {
    pub id: crate::types::NetworkStackAdapterId,
    pub generation: Generation,
    pub state: crate::types::NetworkStackAdapterState,
}

/// A store's capability over a display and its framebuffer.
pub struct DisplayCapabilityRecord {
    pub id: crate::types::DisplayCapabilityId,
    pub generation: Generation,
    pub owner_store: StoreId,
    pub owner_store_generation: Generation,
    pub display: crate::types::DisplayObjectId,
    pub display_generation: Generation,
    pub framebuffer: crate::types::FramebufferObjectId,
    pub framebuffer_generation: Generation,
    pub operations: Vec<String>,
    pub capability: crate::types::CapabilityId,
    pub capability_generation: Generation,
    pub state: crate::types::DisplayCapabilityState,
}

/// A display bound to a framebuffer.
pub struct DisplayObjectRecord {
    pub id: crate::types::DisplayObjectId,
    pub generation: Generation,
    pub framebuffer: crate::types::FramebufferObjectId,
    pub framebuffer_generation: Generation,
    pub state: crate::types::DisplayObjectState,
}

/// A framebuffer.
pub struct FramebufferObjectRecord {
    pub id: crate::types::FramebufferObjectId,
    pub generation: Generation,
    pub state: crate::types::FramebufferObjectState,
}

/// A write into a framebuffer rectangle.
pub struct FramebufferWriteRecord {
    pub id: crate::types::FramebufferWriteId,
    pub generation: Generation,
    pub owner_store: StoreId,
    pub owner_store_generation: Generation,
    pub display_capability: crate::types::DisplayCapabilityId,
    pub display_capability_generation: Generation,
    pub display: crate::types::DisplayObjectId,
    pub display_generation: Generation,
    pub framebuffer: crate::types::FramebufferObjectId,
    pub framebuffer_generation: Generation,
    pub x: u32,
    pub y: u32,
    pub width: u32,
    pub height: u32,
    pub byte_offset: u64,
    pub byte_len: u64,
    pub pixel_format: String,
    pub payload_digest: u64,
    pub recorded_at_event: crate::types::EventId,
    pub state: crate::types::FramebufferWriteState,
}

/// The flush of a framebuffer write to the display.
pub struct FramebufferFlushRegionRecord {
    pub id: crate::types::FramebufferFlushRegionId,
    pub generation: Generation,
    pub owner_store: StoreId,
    pub owner_store_generation: Generation,
    pub framebuffer_write: crate::types::FramebufferWriteId,
    pub framebuffer_write_generation: Generation,
    pub display_capability: crate::types::DisplayCapabilityId,
    pub display_capability_generation: Generation,
    pub display: crate::types::DisplayObjectId,
    pub display_generation: Generation,
    pub framebuffer: crate::types::FramebufferObjectId,
    pub framebuffer_generation: Generation,
    pub x: u32,
    pub y: u32,
    pub width: u32,
    pub height: u32,
    pub byte_offset: u64,
    pub byte_len: u64,
    pub pixel_format: String,
    pub payload_digest: u64,
    pub recorded_at_event: crate::types::EventId,
    pub state: crate::types::FramebufferFlushRegionState,
}

/// A window of the event log that concerns one display.
pub struct DisplayEventLogRecord {
    pub id: crate::types::DisplayEventLogId,
    pub generation: Generation,
    pub owner_store: StoreId,
    pub owner_store_generation: Generation,
    pub display_capability: crate::types::DisplayCapabilityId,
    pub display_capability_generation: Generation,
    pub display: crate::types::DisplayObjectId,
    pub display_generation: Generation,
    pub framebuffer: crate::types::FramebufferObjectId,
    pub framebuffer_generation: Generation,
    pub flush_count: u64,
    pub first_event: crate::types::EventId,
    pub last_event: crate::types::EventId,
    pub state: crate::types::DisplayEventLogState,
}

/// A snapshot barrier over one display.
pub struct DisplaySnapshotBarrierRecord {
    pub id: crate::types::DisplaySnapshotBarrierId,
    pub generation: Generation,
    pub owner_store: StoreId,
    pub owner_store_generation: Generation,
    pub display: crate::types::DisplayObjectId,
    pub display_generation: Generation,
    pub framebuffer: crate::types::FramebufferObjectId,
    pub framebuffer_generation: Generation,
    pub active_framebuffer_window_lease_count: u32,
    pub active_framebuffer_mapping_count: u32,
    pub dirty_framebuffer_region_count: u32,
    pub state: crate::types::DisplaySnapshotBarrierState,
}

} // verus!

verus! {

/// A page integrated into the block layer from a DMA buffer.
pub struct BlockPageObjectRecord {
    pub id: crate::types::BlockPageObjectId,
    pub generation: Generation,
    pub block_dma_buffer: crate::types::BlockDmaBufferId,
    pub block_dma_buffer_generation: Generation,
    pub block_device: crate::types::BlockDeviceObjectId,
    pub block_device_generation: Generation,
    pub block_range: crate::types::BlockRangeObjectId,
    pub block_range_generation: Generation,
    pub aspace: crate::types::GuestAddressSpaceId,
    pub vma_region: crate::types::VmaRegionId,
    pub page: crate::types::ContractObjectRef,
    pub page_dirty_generation: Generation,
    pub page_offset: u64,
    pub byte_len: u64,
    pub operation: crate::types::BlockRequestOperation,
    pub state: crate::types::BlockPageObjectState,
}

/// A completed cleanup of a block driver, with what it cancelled, released and revoked.
pub struct BlockDriverCleanupRecord {
    pub id: crate::types::BlockDriverCleanupId,
    pub generation: Generation,
    pub io_cleanup: crate::types::IoCleanupId,
    pub io_cleanup_generation: Generation,
    pub backend: crate::types::ContractObjectRef,
    pub block_device: crate::types::BlockDeviceObjectId,
    pub block_device_generation: Generation,
    pub driver_store: StoreId,
    pub driver_store_generation: Generation,
    pub device: crate::types::DeviceObjectId,
    pub device_generation: Generation,
    pub driver_binding: crate::types::DriverStoreBindingId,
    pub driver_binding_generation: Generation,
    pub started_at_event: crate::types::EventId,
    pub completed_at_event: Option<crate::types::EventId>,
    pub cancelled_block_waits: Vec<crate::types::ContractObjectRef>,
    pub cancelled_wait_tokens: Vec<crate::types::ContractObjectRef>,
    pub released_dma_buffers: Vec<crate::types::ContractObjectRef>,
    pub revoked_device_capabilities: Vec<crate::types::ContractObjectRef>,
    pub state: crate::types::BlockDriverCleanupState,
}

/// Evidence that a driver store holds a capability over a device.
pub struct DeviceCapabilityRecord {
    pub id: crate::types::DeviceCapabilityId,
    pub generation: Generation,
    pub driver_store: StoreId,
    pub driver_store_generation: Generation,
    pub target: crate::types::ContractObjectRef,
    pub class: crate::types::CapabilityClass,
    pub operation: String,
    pub capability: crate::types::CapabilityId,
    pub capability_generation: Generation,
    pub state: crate::types::DeviceCapabilityState,
}

/// An entry of the capability ledger.
pub struct CapabilityRecord {
    pub id: crate::types::CapabilityId,
    pub generation: Generation,
    pub subject: String,
    pub object_ref: Option<crate::types::AuthorityObjectRef>,
    pub operations: Vec<String>,
    pub owner_store: Option<StoreId>,
    pub owner_store_generation: Option<Generation>,
    pub revoked: bool,
}

/// A mapping of a framebuffer into a store.
pub struct FramebufferMappingRecord {
    pub id: crate::types::FramebufferMappingId,
    pub generation: Generation,
    pub owner_store: StoreId,
    pub owner_store_generation: Generation,
    pub display_capability: crate::types::DisplayCapabilityId,
    pub display_capability_generation: Generation,
    pub display: crate::types::DisplayObjectId,
    pub display_generation: Generation,
    pub framebuffer: crate::types::FramebufferObjectId,
    pub framebuffer_generation: Generation,
    pub state: crate::types::FramebufferMappingState,
}

/// A lease on a window of a framebuffer held by a store.
pub struct FramebufferWindowLeaseRecord {
    pub id: crate::types::FramebufferWindowLeaseId,
    pub generation: Generation,
    pub owner_store: StoreId,
    pub owner_store_generation: Generation,
    pub display_capability: crate::types::DisplayCapabilityId,
    pub display_capability_generation: Generation,
    pub display: crate::types::DisplayObjectId,
    pub display_generation: Generation,
    pub framebuffer: crate::types::FramebufferObjectId,
    pub framebuffer_generation: Generation,
    pub state: crate::types::FramebufferWindowLeaseState,
}

} // verus!
