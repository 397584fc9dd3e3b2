use vstd::prelude::*;
use crate::types::ContractObjectRef;

verus! {

/// The first broken invariant an audit finds.
#[allow(inconsistent_fields)]
#[derive(Clone, Copy, Debug, PartialEq, Eq, Structural)]
pub enum SemanticInvariantError {
    BlockDeviceObjectMissingDevice { block_device: u64, device: u64 },
    BlockDeviceObjectInvalid { block_device: u64 },
    BlockDeviceObjectMissingEvent { block_device: u64 },
    BlockRangeObjectMissingDevice { block_range: u64, block_device: u64 },
    BlockRangeObjectInvalid { block_range: u64 },
    BlockRangeObjectMissingEvent { block_range: u64 },
    DescriptorObjectMissingQueue { descriptor: u64, queue: u64 },
    DescriptorObjectInvalid { descriptor: u64 },
    DescriptorObjectDuplicateSlot { descriptor: u64, queue: u64, slot: u16 },
    DescriptorObjectMissingEvent { descriptor: u64 },
    BlockWaitMissingWait { block_wait: u64, wait: u64 },
    BlockWaitMissingRequest { block_wait: u64, block_request: u64 },
    BlockWaitInvalid { block_wait: u64 },
    BlockWaitDuplicateWait { block_wait: u64, wait: u64 },
    BlockWaitMissingCompletion { block_wait: u64, block_completion: u64 },
    BlockWaitMissingEvent { block_wait: u64, event: u64 },
    BlockPendingIoPolicyInvalid { policy: u64 },
    BlockPendingIoPolicyMissingBlockWait { policy: u64, block_wait: u64 },
    BlockPendingIoPolicyMissingRequest { policy: u64, block_request: u64 },
    BlockPendingIoPolicyMissingRetryRequest { policy: u64, block_request: u64 },
    BlockPendingIoPolicyMissingEvent { policy: u64, event: u64 },
    BlockWritePathMissingBackend { write_path: u64, backend: ContractObjectRef },
    BlockWritePathMissingRequest { write_path: u64, block_request: u64 },
    BlockWritePathMissingCompletion { write_path: u64, block_completion: u64 },
    BlockWritePathInvalid { write_path: u64 },
    BlockWritePathDuplicateRequest { write_path: u64, block_request: u64 },
    BlockWritePathMissingEvent { write_path: u64 },
    BlockRequestQueueMissingBackend { queue: u64, backend: ContractObjectRef },
    BlockRequestQueueMissingBlockDevice { queue: u64, block_device: u64 },
    BlockRequestQueueInvalid { queue: u64 },
    BlockRequestQueueMissingRequest { queue: u64, block_request: u64 },
    BlockRequestQueueMissingCompletion { queue: u64, block_completion: u64 },
    BlockRequestQueueDuplicateRequest { queue: u64, block_request: u64 },
    BlockRequestQueueDuplicateSequence { queue: u64, sequence: u64 },
    BlockRequestQueueMissingEvent { queue: u64 },
    FsWaitMissingWait { fs_wait: u64, wait: u64 },
    FsWaitMissingStore { fs_wait: u64, store: u64 },
    FsWaitMissingFileObject { fs_wait: u64, file_object: u64 },
    FsWaitMissingDirectoryObject { fs_wait: u64, directory_object: u64 },
    FsWaitMissingFileHandleCapability { fs_wait: u64, file_handle_capability: u64 },
    FsWaitInvalid { fs_wait: u64 },
    FsWaitDuplicateWait { fs_wait: u64, wait: u64 },
    FsWaitMissingEvent { fs_wait: u64, event: u64 },
    DirectoryObjectMissingFileObject { directory_object: u64, file_object: u64 },
    DirectoryObjectInvalid { directory_object: u64 },
    DirectoryObjectDuplicateEntry { directory_object: u64 },
    DirectoryObjectMissingEvent { directory_object: u64 },
    CrossHartSchedulerDecisionInvalid { cross_decision: u64 },
    CrossHartSchedulerDecisionMissingDecision { cross_decision: u64, decision: u64 },
    CrossHartSchedulerDecisionMissingHart { cross_decision: u64, hart: u64 },
    CrossHartSchedulerDecisionHartGenerationMismatch { cross_decision: u64, hart: u64 },
    CrossHartSchedulerDecisionQueueOwnerMismatch { cross_decision: u64, queue: u64 },
    CrossHartSchedulerDecisionMissingEvent { cross_decision: u64 },
    CrossHartSchedulerDecisionMissingHartEventAttribution { cross_decision: u64, event: u64 },
    EndpointObjectMissingSocket { endpoint: u64, socket: u64 },
    EndpointObjectMissingAdapter { endpoint: u64, adapter: u64 },
    EndpointObjectMissingOwnerStore { endpoint: u64, store: u64 },
    EndpointObjectInvalid { endpoint: u64 },
    EndpointObjectDuplicate { endpoint: u64 },
    EndpointObjectDuplicateSocket { endpoint: u64, socket: u64 },
    EndpointObjectMissingEvent { endpoint: u64 },
    FramebufferBenchmarkInvalid { benchmark: u64 },
    FramebufferBenchmarkMissingTarget { benchmark: u64, target: ContractObjectRef },
    FramebufferBenchmarkMetricMismatch { benchmark: u64 },
    FramebufferBenchmarkMissingEvent { benchmark: u64, event: u64 },
    InvalidGuestMemory,
    FramebufferDirtyRegionMissingStore { framebuffer_dirty_region: u64, store: u64 },
    FramebufferDirtyRegionMissingWrite { framebuffer_dirty_region: u64, framebuffer_write: u64 },
    FramebufferDirtyRegionMissingFlush { framebuffer_dirty_region: u64, framebuffer_flush_region: u64 },
    FramebufferDirtyRegionInvalid { framebuffer_dirty_region: u64 },
    FramebufferDirtyRegionMissingEvent { framebuffer_dirty_region: u64 },
    BufferCacheObjectMissingBlockPageObject { buffer_cache_object: u64, block_page_object: u64 },
    BufferCacheObjectInvalid { buffer_cache_object: u64 },
    BufferCacheObjectDuplicateBlockRange { buffer_cache_object: u64, block_range: u64 },
    BufferCacheObjectDuplicatePageRange { buffer_cache_object: u64, page: ContractObjectRef },
    BufferCacheObjectMissingEvent { buffer_cache_object: u64 },
    BlockRecoveryBenchmarkInvalid { benchmark: u64 },
    BlockRecoveryBenchmarkMissingTarget { benchmark: u64, target: ContractObjectRef },
    BlockRecoveryBenchmarkMetricMismatch { benchmark: u64 },
    BlockRecoveryBenchmarkMissingEvent { benchmark: u64, event: u64 },
    DriverStoreBindingMissingStore { binding: u64, store: u64 },
    DriverStoreBindingMissingDevice { binding: u64, device: u64 },
    DriverStoreBindingMissingCapabilityEvidence { binding: u64, device_capability: u64 },
    DriverStoreBindingInvalid { binding: u64 },
    DriverStoreBindingDuplicateDevice { binding: u64, device: u64 },
    DriverStoreBindingMissingEvent { binding: u64 },
    DisplayCleanupInvalid { cleanup: u64 },
    DisplayCleanupMissingStore { cleanup: u64, store: u64 },
    DisplayCleanupMissingDisplayCapability { cleanup: u64, display_capability: u64 },
    DisplayCleanupMissingEffectTarget { cleanup: u64, target: ContractObjectRef },
    DisplayCleanupMissingEvent { cleanup: u64 },
}

} // verus!
