use vstd::prelude::*;

verus! {

pub type Generation = u64;
pub type EventId = u64;
pub type ResourceId = u64;
pub type StoreId = u64;
pub type WaitId = u64;
pub type DeviceObjectId = u64;
pub type QueueObjectId = u64;
pub type DescriptorObjectId = u64;
pub type BlockDeviceObjectId = u64;
pub type BlockRangeObjectId = u64;
pub type BlockRequestObjectId = u64;
pub type BlockCompletionObjectId = u64;
pub type BlockWaitId = u64;
pub type BlockWritePathId = u64;
pub type BlockRequestQueueId = u64;
pub type BlockPendingIoPolicyId = u64;
pub type FakeBlockBackendObjectId = u64;
pub type FileObjectId = u64;
pub type DirectoryObjectId = u64;
pub type FileHandleCapabilityId = u64;
pub type FsWaitId = u64;
pub type HartId = u64;
pub type ActivationId = u64;
pub type RunnableQueueId = u64;
pub type SchedulerDecisionId = u64;
pub type CrossHartSchedulerDecisionId = u64;
pub type HartEventAttributionId = u64;
pub type SocketObjectId = u64;
pub type NetworkStackAdapterId = u64;
pub type EndpointObjectId = u64;
pub type DisplayCapabilityId = u64;
pub type DisplayObjectId = u64;
pub type FramebufferObjectId = u64;
pub type FramebufferWriteId = u64;
pub type FramebufferFlushRegionId = u64;
pub type DisplayEventLogId = u64;
pub type DisplaySnapshotBarrierId = u64;
pub type FramebufferBenchmarkId = u64;
pub type FramebufferDirtyRegionId = u64;
pub type BufferCacheObjectId = u64;
pub type BlockPageObjectId = u64;
pub type BlockDmaBufferId = u64;
pub type GuestAddressSpaceId = u64;
pub type VmaRegionId = u64;
pub type BlockRecoveryBenchmarkId = u64;
pub type BlockDriverCleanupId = u64;
pub type IoCleanupId = u64;
pub type DriverStoreBindingId = u64;
pub type DeviceCapabilityId = u64;
pub type CapabilityId = u64;
pub type DisplayCleanupId = u64;
pub type TaskId = u64;
pub type SocketWaitId = u64;
pub type IoWaitId = u64;
pub type ActivationContextId = u64;
pub type ActivationWaitId = u64;
pub type SavedContextId = u64;
pub type TimerInterruptId = u64;
pub type IpiEventId = u64;
pub type PreemptionId = u64;
pub type IrqEventId = u64;
pub type ActivationCleanupId = u64;
pub type TransactionId = u64;
pub type FramebufferMappingId = u64;
pub type FramebufferWindowLeaseId = u64;

/// Kinds of graph objects that a reference may name.
#[derive(Clone, Copy, Debug, PartialEq, Eq, Structural)]
pub enum ContractObjectKind {
    DeviceObject,
    BlockDeviceObject,
    BlockRequestObject,
    FakeBlockBackendObject,
    VirtioBlkBackendObject,
    FileHandleCapability,
    PageObject,
    Store,
    DisplayObject,
    FramebufferObject,
    DisplayCapability,
    FramebufferWrite,
    FramebufferFlushRegion,
    DisplayEventLog,
    DisplaySnapshotBarrier,
    BlockDriverCleanup,
    Capability,
    FramebufferMapping,
    FramebufferWindowLease,
    CodeObject,
    IrqLineObject,
}

/// A reference to one generation of one graph object.
#[derive(Clone, Copy, Debug, PartialEq, Eq, Structural)]
pub struct ContractObjectRef {
    pub kind: ContractObjectKind,
    pub id: u64,
    pub generation: Generation,
}

impl ContractObjectRef {
    pub fn new(kind: ContractObjectKind, id: u64, generation: Generation) -> (r: ContractObjectRef)
        ensures
            r == (ContractObjectRef { kind, id, generation }),
    {
        ContractObjectRef { kind, id, generation }
    }
}

#[derive(Clone, Copy, Debug, PartialEq, Eq, Structural)]
pub enum StoreState {
    Loaded,
    Running,
    Faulted,
    Cleaning,
    Dead,
}

#[derive(Clone, Copy, Debug, PartialEq, Eq, Structural)]
pub enum WaitState {
    Pending,
    Resolved,
    Consumed,
    Cancelled,
}

#[derive(Clone, Copy, Debug, PartialEq, Eq, Structural)]
pub enum SemanticWaitKind {
    DriverCompletion,
    FdReadable,
    FdWritable,
    Timer,
    Futex,
    SocketReadable,
    SocketWritable,
}

#[derive(Clone, Copy, Debug, PartialEq, Eq, Structural)]
pub enum WaitCancelReason {
    CloseFd,
    StoreFault,
    DeviceFault,
    CapabilityRevoked,
    ResourceDropped,
    GenerationMismatch,
    Timeout,
}

#[derive(Clone, Copy, Debug, PartialEq, Eq, Structural)]
pub enum ResourceKind {
    BlockDevice,
    NetworkDevice,
    Display,
    Memory,
}

#[derive(Clone, Copy, Debug, PartialEq, Eq, Structural)]
pub enum DeviceObjectState {
    Registered,
    Removed,
}

#[derive(Clone, Copy, Debug, PartialEq, Eq, Structural)]
pub enum QueueObjectState {
    Registered,
    Retired,
}

#[derive(Clone, Copy, Debug, PartialEq, Eq, Structural)]
pub enum BlockRequestOperation {
    Read,
    Write,
}

#[derive(Clone, Copy, Debug, PartialEq, Eq, Structural)]
pub enum BlockRequestObjectState {
    Submitted,
    Completed,
    Failed,
}

#[derive(Clone, Copy, Debug, PartialEq, Eq, Structural)]
pub enum BlockCompletionStatus {
    Success,
    IoError,
}

#[derive(Clone, Copy, Debug, PartialEq, Eq, Structural)]
pub enum BlockCompletionObjectState {
    Recorded,
    Retired,
}

#[derive(Clone, Copy, Debug, PartialEq, Eq, Structural)]
pub enum FakeBlockBackendObjectState {
    Bound,
    Unbound,
}

#[derive(Clone, Copy, Debug, PartialEq, Eq, Structural)]
pub enum FileObjectState {
    Materialized,
    Invalidated,
}

#[derive(Clone, Copy, Debug, PartialEq, Eq, Structural)]
pub enum FileHandleCapabilityState {
    Allowed,
    Denied,
    Revoked,
}

#[derive(Clone, Copy, Debug, PartialEq, Eq, Structural)]
pub enum HartState {
    Online,
    Running,
    Idle,
    Offline,
    Faulted,
    Parked,
}

#[derive(Clone, Copy, Debug, PartialEq, Eq, Structural)]
pub enum SchedulerDecisionState {
    Recorded,
    Consumed,
    Dropped,
}

#[derive(Clone, Copy, Debug, PartialEq, Eq, Structural)]
pub enum RunnableQueueState {
    Active,
    Retired,
}

#[derive(Clone, Copy, Debug, PartialEq, Eq, Structural)]
pub enum SocketObjectState {
    Created,
    Closed,
}

#[derive(Clone, Copy, Debug, PartialEq, Eq, Structural)]
pub enum NetworkStackAdapterState {
    Bound,
    Unbound,
}

#[derive(Clone, Copy, Debug, PartialEq, Eq, Structural)]
pub enum DisplayCapabilityState {
    Active,
    Revoked,
    Expired,
}

#[derive(Clone, Copy, Debug, PartialEq, Eq, Structural)]
pub enum DisplayObjectState {
    Registered,
    Retired,
}

#[derive(Clone, Copy, Debug, PartialEq, Eq, Structural)]
pub enum FramebufferObjectState {
    Registered,
    Retired,
}

#[derive(Clone, Copy, Debug, PartialEq, Eq, Structural)]
pub enum FramebufferWriteState {
    Applied,
    Rejected,
}

#[derive(Clone, Copy, Debug, PartialEq, Eq, Structural)]
pub enum FramebufferFlushRegionState {
    Applied,
    Rejected,
}

#[derive(Clone, Copy, Debug, PartialEq, Eq, Structural)]
pub enum DisplayEventLogState {
    Recorded,
    Discarded,
}

#[derive(Clone, Copy, Debug, PartialEq, Eq, Structural)]
pub enum DisplaySnapshotBarrierState {
    Validated,
    Rejected,
}

} // verus!

verus! {

#[derive(Clone, Copy, Debug, PartialEq, Eq, Structural)]
pub enum DescriptorObjectAccess {
    ReadOnly,
    WriteOnly,
    ReadWrite,
    Execute,
}

#[derive(Clone, Copy, Debug, PartialEq, Eq, Structural)]
pub enum BlockPendingIoAction {
    Cancel,
    Retry,
    Eio,
}

/// The two file-handle operations a file-system wait may block on.
#[derive(Clone, Copy, Debug, PartialEq, Eq, Structural)]
pub enum FsWaitOperation {
    Read,
    Write,
}

} // verus!

verus! {

/// The four octets of an IPv4 address.
#[derive(Clone, Copy, Debug, PartialEq, Eq, Structural)]
pub struct Ipv4Octets {
    pub a: u8,
    pub b: u8,
    pub c: u8,
    pub d: u8,
}

impl Ipv4Octets {
    pub open spec fn spec_from_array(addr: [u8; 4]) -> Ipv4Octets {
        Ipv4Octets { a: addr@[0], b: addr@[1], c: addr@[2], d: addr@[3] }
    }

    #[verifier::when_used_as_spec(spec_from_array)]
    pub fn from_array(addr: [u8; 4]) -> (r: Ipv4Octets)
        ensures
            r == Ipv4Octets::spec_from_array(addr),
    {
        Ipv4Octets { a: addr[0], b: addr[1], c: addr[2], d: addr[3] }
    }
}

} // verus!

verus! {

#[derive(Clone, Copy, Debug, PartialEq, Eq, Structural)]
pub enum BlockDeviceObjectState {
    Registered,
    Retired,
}

#[derive(Clone, Copy, Debug, PartialEq, Eq, Structural)]
pub enum BlockRangeObjectState {
    Registered,
    Retired,
}

#[derive(Clone, Copy, Debug, PartialEq, Eq, Structural)]
pub enum DescriptorObjectState {
    Registered,
    Released,
}

#[derive(Clone, Copy, Debug, PartialEq, Eq, Structural)]
pub enum BlockWaitState {
    Pending,
    Resolved,
    Cancelled,
}

#[derive(Clone, Copy, Debug, PartialEq, Eq, Structural)]
pub enum BlockPendingIoPolicyState {
    Cancelled,
    RetryScheduled,
    EioReturned,
}

#[derive(Clone, Copy, Debug, PartialEq, Eq, Structural)]
pub enum BlockWritePathState {
    Completed,
    Failed,
}

#[derive(Clone, Copy, Debug, PartialEq, Eq, Structural)]
pub enum BlockRequestQueueState {
    Active,
    Drained,
}

#[derive(Clone, Copy, Debug, PartialEq, Eq, Structural)]
pub enum BlockRequestQueueEntryState {
    Pending,
    Completed,
}

#[derive(Clone, Copy, Debug, PartialEq, Eq, Structural)]
pub enum FsWaitState {
    Pending,
    Resolved,
    Cancelled,
}

#[derive(Clone, Copy, Debug, PartialEq, Eq, Structural)]
pub enum DirectoryObjectState {
    Materialized,
    Cached,
    Invalidated,
}

#[derive(Clone, Copy, Debug, PartialEq, Eq, Structural)]
pub enum DirectoryEntryKind {
    File,
    Directory,
}

#[derive(Clone, Copy, Debug, PartialEq, Eq, Structural)]
pub enum CrossHartSchedulerDecisionState {
    Recorded,
    Superseded,
}

#[derive(Clone, Copy, Debug, PartialEq, Eq, Structural)]
pub enum EndpointObjectState {
    Allocated,
    Released,
}

#[derive(Clone, Copy, Debug, PartialEq, Eq, Structural)]
pub enum FramebufferBenchmarkState {
    Recorded,
    Discarded,
}

} // verus!

verus! {

#[derive(Clone, Copy, Debug, PartialEq, Eq, Structural)]
pub enum FramebufferDirtyRegionState {
    Dirty,
    Clean,
}

#[derive(Clone, Copy, Debug, PartialEq, Eq, Structural)]
pub enum BufferCacheObjectState {
    Clean,
    Dirty,
    Invalidated,
}

#[derive(Clone, Copy, Debug, PartialEq, Eq, Structural)]
pub enum BlockPageObjectState {
    Integrated,
    Released,
}

#[derive(Clone, Copy, Debug, PartialEq, Eq, Structural)]
pub enum BlockRecoveryBenchmarkState {
    Recorded,
    Discarded,
}

#[derive(Clone, Copy, Debug, PartialEq, Eq, Structural)]
pub enum BlockDriverCleanupState {
    Started,
    Completed,
}

#[derive(Clone, Copy, Debug, PartialEq, Eq, Structural)]
pub enum DriverStoreBindingState {
    Bound,
    Released,
}

#[derive(Clone, Copy, Debug, PartialEq, Eq, Structural)]
pub enum DeviceCapabilityState {
    Active,
    Revoked,
}

/// The class of object a capability governs.
#[derive(Clone, Copy, Debug, PartialEq, Eq, Structural)]
pub enum CapabilityClass {
    Device,
    Display,
    Store,
    Other,
}

/// Life cycle of a task.
#[derive(Clone, Copy, Debug, PartialEq, Eq, Structural)]
pub enum TaskState {
    Pending,
    Runnable,
    Running,
    Exited,
    Faulted,
    Cancelled,
}

/// Life cycle of a runtime activation (one run of a task's code).
#[derive(Clone, Copy, Debug, PartialEq, Eq, Structural)]
pub enum RuntimeActivationState {
    Created,
    Runnable,
    Running,
    Blocked,
    Exited,
    Dead,
}

/// Life cycle of a wait on a socket.
#[derive(Clone, Copy, Debug, PartialEq, Eq, Structural)]
pub enum SocketWaitState {
    Pending,
    Resolved,
    Cancelled,
}

/// Life cycle of a wait on a device interrupt.
#[derive(Clone, Copy, Debug, PartialEq, Eq, Structural)]
pub enum IoWaitState {
    Pending,
    Resolved,
    Cancelled,
}

/// What an interrupted wait does when it is woken by a signal: start again, or return to its
/// caller as interrupted.
#[derive(Clone, Copy, Debug, PartialEq, Eq, Structural)]
pub enum WaitRestartPolicy {
    Restart,
    ReturnInterrupted,
}

/// Life cycle of a recorded device interrupt.
#[derive(Clone, Copy, Debug, PartialEq, Eq, Structural)]
pub enum IrqEventState {
    Recorded,
    Consumed,
}

/// Life cycle of the register context of an activation.
#[derive(Clone, Copy, Debug, PartialEq, Eq, Structural)]
pub enum ActivationContextState {
    Created,
    Saved,
    Dropped,
}

/// Life cycle of an activation's wait on a wait token.
#[derive(Clone, Copy, Debug, PartialEq, Eq, Structural)]
pub enum ActivationWaitState {
    Pending,
    Resolved,
    Cancelled,
}

/// Life cycle of the preemption of an activation.
#[derive(Clone, Copy, Debug, PartialEq, Eq, Structural)]
pub enum PreemptionState {
    Applied,
    Resumed,
}

/// Life cycle of a graph transaction such as a cleanup.
#[derive(Clone, Copy, Debug, PartialEq, Eq, Structural)]
pub enum TransactionState {
    Begun,
    Committed,
}

/// The class of a hostcall, as the runtime numbers it.
#[derive(Clone, Copy, Debug, PartialEq, Eq, Structural)]
pub struct HostcallClass {
    pub code: u32,
}

/// What a capability's authority is attached to: a class of object and the object itself.
#[derive(Clone, Copy, Debug, PartialEq, Eq, Structural)]
pub struct AuthorityObjectRef {
    pub class: CapabilityClass,
    pub object: ContractObjectRef,
}

impl AuthorityObjectRef {
    /// The authority over `object` that the kernel itself grants under `class`.
    pub fn internal(class: CapabilityClass, object: ContractObjectRef) -> (r: AuthorityObjectRef)
        ensures
            r == (AuthorityObjectRef { class, object }),
    {
        AuthorityObjectRef { class, object }
    }
}

#[derive(Clone, Copy, Debug, PartialEq, Eq, Structural)]
pub enum DisplayCleanupState {
    Started,
    Completed,
}

#[derive(Clone, Copy, Debug, PartialEq, Eq, Structural)]
pub enum DisplayCleanupStepKind {
    UnmapFramebufferMappings,
    ReleaseFramebufferWindowLeases,
    RevokeDisplayCapabilities,
}

#[derive(Clone, Copy, Debug, PartialEq, Eq, Structural)]
pub enum DisplayCleanupStepStatus {
    Done,
    SkippedNotPresent,
}

#[derive(Clone, Copy, Debug, PartialEq, Eq, Structural)]
pub enum FramebufferMappingState {
    Active,
    Unmapped,
}

#[derive(Clone, Copy, Debug, PartialEq, Eq, Structural)]
pub enum FramebufferWindowLeaseState {
    Active,
    Released,
}

} // verus!
