use vstd::prelude::*;
use crate::base::{
    BlockCompletionObjectRecord, BlockRequestObjectRecord, DeviceObjectRecord,
    DisplayCapabilityRecord, DisplayEventLogRecord, DisplayObjectRecord,
    DisplaySnapshotBarrierRecord, FakeBlockBackendObjectRecord, FileHandleCapabilityRecord,
    FileObjectRecord, FramebufferFlushRegionRecord, FramebufferObjectRecord,
    FramebufferWriteRecord, HartEventAttributionRecord, HartRecord, NetworkStackAdapterRecord,
    QueueObjectRecord, ResourceRecord, RunnableQueueRecord, SchedulerDecisionRecord,
    SocketObjectRecord, StoreRecord, WaitRecord, BlockPageObjectRecord, BlockDriverCleanupRecord,
    DeviceCapabilityRecord, CapabilityRecord, FramebufferMappingRecord, FramebufferWindowLeaseRecord,
    RuntimeActivationRecord, SemanticTransactionRecord, TaskRecord, SocketWaitRecord, IoWaitRecord,
    ActivationContextRecord, ActivationWaitRecord, ActivationCleanupRecord, SavedContextRecord,
    TimerInterruptRecord, IpiEventRecord, PreemptionRecord, IrqEventRecord,
};
use crate::framebuffer_dirty_region::FramebufferDirtyRegionRecord;
use crate::buffer_cache_object::BufferCacheObjectRecord;
use crate::block_recovery_benchmark::BlockRecoveryBenchmarkRecord;
use crate::driver_store_binding::DriverStoreBindingRecord;
use crate::display_cleanup::DisplayCleanupRecord;
use crate::block_device_object::BlockDeviceObjectRecord;
use crate::block_range_object::BlockRangeObjectRecord;
use crate::descriptor_object::DescriptorObjectRecord;
use crate::block_wait::BlockWaitRecord;
use crate::block_write_path::BlockWritePathRecord;
use crate::block_request_queue::BlockRequestQueueRecord;
use crate::block_pending_io_policy::BlockPendingIoPolicyRecord;
use crate::directory_object::DirectoryObjectRecord;
use crate::fs_wait::FsWaitRecord;
use crate::cross_scheduler::CrossHartSchedulerDecisionRecord;
use crate::endpoint_object::EndpointObjectRecord;
use crate::framebuffer_benchmark::FramebufferBenchmarkRecord;
use crate::guest_memory::{
    GuestAddressSpaceRecord, GuestMemoryFaultRecord, GuestMemoryOperationRecord,
    PageObjectRecord, VmaRegionRecord,
};
use crate::events::EventLog;
use crate::types::{
    BlockDeviceObjectId, BlockPendingIoPolicyId, BlockRangeObjectId, BlockRequestQueueId,
    BlockWaitId, BlockWritePathId, CrossHartSchedulerDecisionId, DescriptorObjectId,
    DirectoryObjectId, EndpointObjectId, FramebufferBenchmarkId, FsWaitId,
    HartEventAttributionId, FramebufferDirtyRegionId, BufferCacheObjectId,
    BlockRecoveryBenchmarkId, DriverStoreBindingId, DisplayCleanupId, TransactionId,
};

verus! {

/// The tables of the graph, as named by frame conditions.
#[derive(Clone, Copy, Debug, PartialEq, Eq, Structural)]
pub enum Table {
    EventLog,
    Resources,
    DeviceObjects,
    QueueObjects,
    DescriptorObjects,
    Stores,
    Waits,
    BlockDeviceObjects,
    BlockRangeObjects,
    BlockRequestObjects,
    BlockCompletionObjects,
    BlockWaits,
    FakeBlockBackends,
    BlockWritePaths,
    BlockRequestQueues,
    BlockPendingIoPolicies,
    FileObjects,
    DirectoryObjects,
    FileHandleCapabilities,
    FsWaits,
    Harts,
    SchedulerDecisions,
    RunnableQueues,
    CrossHartSchedulerDecisions,
    HartEventAttributions,
    SocketObjects,
    NetworkStackAdapters,
    EndpointObjects,
    DisplayCapabilities,
    DisplayObjects,
    FramebufferObjects,
    FramebufferWrites,
    FramebufferFlushRegions,
    DisplayEventLogs,
    DisplaySnapshotBarriers,
    FramebufferBenchmarks,
    GuestMemory,
    FramebufferDirtyRegions,
    BufferCacheObjects,
    BlockPageObjects,
    BlockRecoveryBenchmarks,
    BlockDriverCleanups,
    DriverStoreBindings,
    DeviceCapabilities,
    Capabilities,
    DisplayCleanups,
    FramebufferMappings,
    FramebufferWindowLeases,
    Tasks,
    RuntimeActivations,
    Transactions,
    SocketWaits,
    IoWaits,
    ActivationContexts,
    ActivationWaits,
    ActivationCleanups,
    SavedContexts,
    TimerInterrupts,
    IpiEvents,
    Preemptions,
    IrqEvents,
}

/// The semantic object graph: every table of records plus the event log.
pub struct SemanticGraph {
    pub event_log: EventLog,
    pub resources: Vec<ResourceRecord>,
    pub device_objects: Vec<DeviceObjectRecord>,
    pub queue_objects: Vec<QueueObjectRecord>,
    pub descriptor_objects: Vec<DescriptorObjectRecord>,
    pub next_descriptor_object_id: DescriptorObjectId,
    pub stores: Vec<StoreRecord>,
    pub waits: Vec<WaitRecord>,
    pub block_device_objects: Vec<BlockDeviceObjectRecord>,
    pub next_block_device_object_id: BlockDeviceObjectId,
    pub block_range_objects: Vec<BlockRangeObjectRecord>,
    pub next_block_range_object_id: BlockRangeObjectId,
    pub block_request_objects: Vec<BlockRequestObjectRecord>,
    pub block_completion_objects: Vec<BlockCompletionObjectRecord>,
    pub block_waits: Vec<BlockWaitRecord>,
    pub next_block_wait_id: BlockWaitId,
    pub fake_block_backends: Vec<FakeBlockBackendObjectRecord>,
    pub block_write_paths: Vec<BlockWritePathRecord>,
    pub next_block_write_path_id: BlockWritePathId,
    pub block_request_queues: Vec<BlockRequestQueueRecord>,
    pub next_block_request_queue_id: BlockRequestQueueId,
    pub block_pending_io_policies: Vec<BlockPendingIoPolicyRecord>,
    pub next_block_pending_io_policy_id: BlockPendingIoPolicyId,
    pub file_objects: Vec<FileObjectRecord>,
    pub directory_objects: Vec<DirectoryObjectRecord>,
    pub next_directory_object_id: DirectoryObjectId,
    pub file_handle_capabilities: Vec<FileHandleCapabilityRecord>,
    pub fs_waits: Vec<FsWaitRecord>,
    pub next_fs_wait_id: FsWaitId,
    pub harts: Vec<HartRecord>,
    pub scheduler_decisions: Vec<SchedulerDecisionRecord>,
    pub runnable_queues: Vec<RunnableQueueRecord>,
    pub cross_hart_scheduler_decisions: Vec<CrossHartSchedulerDecisionRecord>,
    pub next_cross_hart_scheduler_decision_id: CrossHartSchedulerDecisionId,
    pub hart_event_attributions: Vec<HartEventAttributionRecord>,
    pub next_hart_event_attribution_id: HartEventAttributionId,
    pub socket_objects: Vec<SocketObjectRecord>,
    pub network_stack_adapters: Vec<NetworkStackAdapterRecord>,
    pub endpoint_objects: Vec<EndpointObjectRecord>,
    pub next_endpoint_object_id: EndpointObjectId,
    pub display_capabilities: Vec<DisplayCapabilityRecord>,
    pub display_objects: Vec<DisplayObjectRecord>,
    pub framebuffer_objects: Vec<FramebufferObjectRecord>,
    pub framebuffer_writes: Vec<FramebufferWriteRecord>,
    pub framebuffer_flush_regions: Vec<FramebufferFlushRegionRecord>,
    pub display_event_logs: Vec<DisplayEventLogRecord>,
    pub display_snapshot_barriers: Vec<DisplaySnapshotBarrierRecord>,
    pub framebuffer_benchmarks: Vec<FramebufferBenchmarkRecord>,
    pub next_framebuffer_benchmark_id: FramebufferBenchmarkId,
    pub guest_address_spaces: Vec<GuestAddressSpaceRecord>,
    pub vma_regions: Vec<VmaRegionRecord>,
    pub page_objects: Vec<PageObjectRecord>,
    pub guest_memory_faults: Vec<GuestMemoryFaultRecord>,
    pub guest_memory_operations: Vec<GuestMemoryOperationRecord>,
    pub framebuffer_dirty_regions: Vec<FramebufferDirtyRegionRecord>,
    pub next_framebuffer_dirty_region_id: FramebufferDirtyRegionId,
    pub buffer_cache_objects: Vec<BufferCacheObjectRecord>,
    pub next_buffer_cache_object_id: BufferCacheObjectId,
    pub block_page_objects: Vec<BlockPageObjectRecord>,
    pub block_recovery_benchmarks: Vec<BlockRecoveryBenchmarkRecord>,
    pub next_block_recovery_benchmark_id: BlockRecoveryBenchmarkId,
    pub block_driver_cleanups: Vec<BlockDriverCleanupRecord>,
    pub driver_store_bindings: Vec<DriverStoreBindingRecord>,
    pub next_driver_store_binding_id: DriverStoreBindingId,
    pub device_capabilities: Vec<DeviceCapabilityRecord>,
    pub capabilities: Vec<CapabilityRecord>,
    pub display_cleanups: Vec<DisplayCleanupRecord>,
    pub next_display_cleanup_id: DisplayCleanupId,
    pub framebuffer_mappings: Vec<FramebufferMappingRecord>,
    pub framebuffer_window_leases: Vec<FramebufferWindowLeaseRecord>,
    pub tasks: Vec<TaskRecord>,
    pub runtime_activations: Vec<RuntimeActivationRecord>,
    pub transactions: Vec<SemanticTransactionRecord>,
    pub next_transaction_id: TransactionId,
    pub socket_waits: Vec<SocketWaitRecord>,
    pub io_waits: Vec<IoWaitRecord>,
    pub activation_contexts: Vec<ActivationContextRecord>,
    pub activation_waits: Vec<ActivationWaitRecord>,
    pub activation_cleanups: Vec<ActivationCleanupRecord>,
    pub saved_contexts: Vec<SavedContextRecord>,
    pub timer_interrupts: Vec<TimerInterruptRecord>,
    pub ipi_events: Vec<IpiEventRecord>,
    pub preemptions: Vec<PreemptionRecord>,
    pub irq_events: Vec<IrqEventRecord>,
}

impl SemanticGraph {
    /// `self` equals `other` in every table outside `changed`.
    pub open spec fn agrees_except(&self, other: &SemanticGraph, changed: Set<Table>) -> bool {
        &&& (changed.contains(Table::EventLog) || (self.event_log == other.event_log))
        &&& (changed.contains(Table::Resources) || (self.resources == other.resources))
        &&& (changed.contains(Table::DeviceObjects) || (self.device_objects == other.device_objects))
        &&& (changed.contains(Table::QueueObjects) || (self.queue_objects == other.queue_objects))
        &&& (changed.contains(Table::DescriptorObjects) || (self.descriptor_objects == other.descriptor_objects && self.next_descriptor_object_id == other.next_descriptor_object_id))
        &&& (changed.contains(Table::Stores) || (self.stores == other.stores))
        &&& (changed.contains(Table::Waits) || (self.waits == other.waits))
        &&& (changed.contains(Table::BlockDeviceObjects) || (self.block_device_objects == other.block_device_objects && self.next_block_device_object_id == other.next_block_device_object_id))
        &&& (changed.contains(Table::BlockRangeObjects) || (self.block_range_objects == other.block_range_objects && self.next_block_range_object_id == other.next_block_range_object_id))
        &&& (changed.contains(Table::BlockRequestObjects) || (self.block_request_objects == other.block_request_objects))
        &&& (changed.contains(Table::BlockCompletionObjects) || (self.block_completion_objects == other.block_completion_objects))
        &&& (changed.contains(Table::BlockWaits) || (self.block_waits == other.block_waits && self.next_block_wait_id == other.next_block_wait_id))
        &&& (changed.contains(Table::FakeBlockBackends) || (self.fake_block_backends == other.fake_block_backends))
        &&& (changed.contains(Table::BlockWritePaths) || (self.block_write_paths == other.block_write_paths && self.next_block_write_path_id == other.next_block_write_path_id))
        &&& (changed.contains(Table::BlockRequestQueues) || (self.block_request_queues == other.block_request_queues && self.next_block_request_queue_id == other.next_block_request_queue_id))
        &&& (changed.contains(Table::BlockPendingIoPolicies) || (self.block_pending_io_policies == other.block_pending_io_policies && self.next_block_pending_io_policy_id == other.next_block_pending_io_policy_id))
        &&& (changed.contains(Table::FileObjects) || (self.file_objects == other.file_objects))
        &&& (changed.contains(Table::DirectoryObjects) || (self.directory_objects == other.directory_objects && self.next_directory_object_id == other.next_directory_object_id))
        &&& (changed.contains(Table::FileHandleCapabilities) || (self.file_handle_capabilities == other.file_handle_capabilities))
        &&& (changed.contains(Table::FsWaits) || (self.fs_waits == other.fs_waits && self.next_fs_wait_id == other.next_fs_wait_id))
        &&& (changed.contains(Table::Harts) || (self.harts == other.harts))
        &&& (changed.contains(Table::SchedulerDecisions) || (self.scheduler_decisions == other.scheduler_decisions))
        &&& (changed.contains(Table::RunnableQueues) || (self.runnable_queues == other.runnable_queues))
        &&& (changed.contains(Table::CrossHartSchedulerDecisions) || (self.cross_hart_scheduler_decisions == other.cross_hart_scheduler_decisions && self.next_cross_hart_scheduler_decision_id == other.next_cross_hart_scheduler_decision_id))
        &&& (changed.contains(Table::HartEventAttributions) || (self.hart_event_attributions == other.hart_event_attributions && self.next_hart_event_attribution_id == other.next_hart_event_attribution_id))
        &&& (changed.contains(Table::SocketObjects) || (self.socket_objects == other.socket_objects))
        &&& (changed.contains(Table::NetworkStackAdapters) || (self.network_stack_adapters == other.network_stack_adapters))
        &&& (changed.contains(Table::EndpointObjects) || (self.endpoint_objects == other.endpoint_objects && self.next_endpoint_object_id == other.next_endpoint_object_id))
        &&& (changed.contains(Table::DisplayCapabilities) || (self.display_capabilities == other.display_capabilities))
        &&& (changed.contains(Table::DisplayObjects) || (self.display_objects == other.display_objects))
        &&& (changed.contains(Table::FramebufferObjects) || (self.framebuffer_objects == other.framebuffer_objects))
        &&& (changed.contains(Table::FramebufferWrites) || (self.framebuffer_writes == other.framebuffer_writes))
        &&& (changed.contains(Table::FramebufferFlushRegions) || (self.framebuffer_flush_regions == other.framebuffer_flush_regions))
        &&& (changed.contains(Table::DisplayEventLogs) || (self.display_event_logs == other.display_event_logs))
        &&& (changed.contains(Table::DisplaySnapshotBarriers) || (self.display_snapshot_barriers == other.display_snapshot_barriers))
        &&& (changed.contains(Table::FramebufferBenchmarks) || (self.framebuffer_benchmarks == other.framebuffer_benchmarks && self.next_framebuffer_benchmark_id == other.next_framebuffer_benchmark_id))
        &&& (changed.contains(Table::FramebufferDirtyRegions) || (self.framebuffer_dirty_regions == other.framebuffer_dirty_regions && self.next_framebuffer_dirty_region_id == other.next_framebuffer_dirty_region_id))
        &&& (changed.contains(Table::BufferCacheObjects) || (self.buffer_cache_objects == other.buffer_cache_objects && self.next_buffer_cache_object_id == other.next_buffer_cache_object_id))
        &&& (changed.contains(Table::BlockPageObjects) || (self.block_page_objects == other.block_page_objects))
        &&& (changed.contains(Table::BlockRecoveryBenchmarks) || (self.block_recovery_benchmarks == other.block_recovery_benchmarks && self.next_block_recovery_benchmark_id == other.next_block_recovery_benchmark_id))
        &&& (changed.contains(Table::BlockDriverCleanups) || (self.block_driver_cleanups == other.block_driver_cleanups))
        &&& (changed.contains(Table::DriverStoreBindings) || (self.driver_store_bindings == other.driver_store_bindings && self.next_driver_store_binding_id == other.next_driver_store_binding_id))
        &&& (changed.contains(Table::DeviceCapabilities) || (self.device_capabilities == other.device_capabilities))
        &&& (changed.contains(Table::Capabilities) || (self.capabilities == other.capabilities))
        &&& (changed.contains(Table::DisplayCleanups) || (self.display_cleanups == other.display_cleanups && self.next_display_cleanup_id == other.next_display_cleanup_id))
        &&& (changed.contains(Table::FramebufferMappings) || (self.framebuffer_mappings == other.framebuffer_mappings))
        &&& (changed.contains(Table::FramebufferWindowLeases) || (self.framebuffer_window_leases == other.framebuffer_window_leases))
        &&& (changed.contains(Table::Tasks) || (self.tasks == other.tasks))
        &&& (changed.contains(Table::RuntimeActivations) || (self.runtime_activations == other.runtime_activations))
        &&& (changed.contains(Table::Transactions) || (self.transactions == other.transactions && self.next_transaction_id == other.next_transaction_id))
        &&& (changed.contains(Table::SocketWaits) || (self.socket_waits == other.socket_waits))
        &&& (changed.contains(Table::IoWaits) || (self.io_waits == other.io_waits))
        &&& (changed.contains(Table::ActivationContexts) || (self.activation_contexts == other.activation_contexts))
        &&& (changed.contains(Table::ActivationWaits) || (self.activation_waits == other.activation_waits))
        &&& (changed.contains(Table::ActivationCleanups) || (self.activation_cleanups == other.activation_cleanups))
        &&& (changed.contains(Table::SavedContexts) || (self.saved_contexts == other.saved_contexts))
        &&& (changed.contains(Table::TimerInterrupts) || (self.timer_interrupts == other.timer_interrupts))
        &&& (changed.contains(Table::IpiEvents) || (self.ipi_events == other.ipi_events))
        &&& (changed.contains(Table::Preemptions) || (self.preemptions == other.preemptions))
        &&& (changed.contains(Table::IrqEvents) || (self.irq_events == other.irq_events))
        &&& (changed.contains(Table::GuestMemory) || (self.guest_address_spaces == other.guest_address_spaces && self.vma_regions == other.vma_regions && self.page_objects == other.page_objects && self.guest_memory_faults == other.guest_memory_faults && self.guest_memory_operations == other.guest_memory_operations))
    }

    /// An empty graph whose id counters start at 1.
    pub fn new() -> (g: SemanticGraph)
        ensures
            g.event_log.events@.len() == 0,
            g.event_log.next_event_id == 1,
            g.resources@.len() == 0,
            g.device_objects@.len() == 0,
            g.queue_objects@.len() == 0,
            g.descriptor_objects@.len() == 0,
            g.next_descriptor_object_id == 1,
            g.stores@.len() == 0,
            g.waits@.len() == 0,
            g.block_device_objects@.len() == 0,
            g.next_block_device_object_id == 1,
            g.block_range_objects@.len() == 0,
            g.next_block_range_object_id == 1,
            g.block_request_objects@.len() == 0,
            g.block_completion_objects@.len() == 0,
            g.block_waits@.len() == 0,
            g.next_block_wait_id == 1,
            g.fake_block_backends@.len() == 0,
            g.block_write_paths@.len() == 0,
            g.next_block_write_path_id == 1,
            g.block_request_queues@.len() == 0,
            g.next_block_request_queue_id == 1,
            g.block_pending_io_policies@.len() == 0,
            g.next_block_pending_io_policy_id == 1,
            g.file_objects@.len() == 0,
            g.directory_objects@.len() == 0,
            g.next_directory_object_id == 1,
            g.file_handle_capabilities@.len() == 0,
            g.fs_waits@.len() == 0,
            g.next_fs_wait_id == 1,
            g.harts@.len() == 0,
            g.scheduler_decisions@.len() == 0,
            g.runnable_queues@.len() == 0,
            g.cross_hart_scheduler_decisions@.len() == 0,
            g.next_cross_hart_scheduler_decision_id == 1,
            g.hart_event_attributions@.len() == 0,
            g.next_hart_event_attribution_id == 1,
            g.socket_objects@.len() == 0,
            g.network_stack_adapters@.len() == 0,
            g.endpoint_objects@.len() == 0,
            g.next_endpoint_object_id == 1,
            g.display_capabilities@.len() == 0,
            g.display_objects@.len() == 0,
            g.framebuffer_objects@.len() == 0,
            g.framebuffer_writes@.len() == 0,
            g.framebuffer_flush_regions@.len() == 0,
            g.display_event_logs@.len() == 0,
            g.display_snapshot_barriers@.len() == 0,
            g.framebuffer_benchmarks@.len() == 0,
            g.next_framebuffer_benchmark_id == 1,
            g.guest_address_spaces@.len() == 0,
            g.vma_regions@.len() == 0,
            g.page_objects@.len() == 0,
            g.guest_memory_faults@.len() == 0,
            g.guest_memory_operations@.len() == 0,
            g.framebuffer_dirty_regions@.len() == 0,
            g.next_framebuffer_dirty_region_id == 1,
            g.buffer_cache_objects@.len() == 0,
            g.next_buffer_cache_object_id == 1,
            g.block_page_objects@.len() == 0,
            g.block_recovery_benchmarks@.len() == 0,
            g.next_block_recovery_benchmark_id == 1,
            g.block_driver_cleanups@.len() == 0,
            g.driver_store_bindings@.len() == 0,
            g.next_driver_store_binding_id == 1,
            g.device_capabilities@.len() == 0,
            g.capabilities@.len() == 0,
            g.display_cleanups@.len() == 0,
            g.next_display_cleanup_id == 1,
            g.framebuffer_mappings@.len() == 0,
            g.framebuffer_window_leases@.len() == 0,
            g.tasks@.len() == 0,
            g.runtime_activations@.len() == 0,
            g.transactions@.len() == 0,
            g.next_transaction_id == 1,
            g.socket_waits@.len() == 0,
            g.io_waits@.len() == 0,
            g.activation_contexts@.len() == 0,
            g.activation_waits@.len() == 0,
            g.activation_cleanups@.len() == 0,
            g.saved_contexts@.len() == 0,
            g.timer_interrupts@.len() == 0,
            g.ipi_events@.len() == 0,
            g.preemptions@.len() == 0,
            g.irq_events@.len() == 0,
    {
        SemanticGraph {
            event_log: EventLog::new(),
            resources: Vec::new(),
            device_objects: Vec::new(),
            queue_objects: Vec::new(),
            descriptor_objects: Vec::new(),
            next_descriptor_object_id: 1,
            stores: Vec::new(),
            waits: Vec::new(),
            block_device_objects: Vec::new(),
            next_block_device_object_id: 1,
            block_range_objects: Vec::new(),
            next_block_range_object_id: 1,
            block_request_objects: Vec::new(),
            block_completion_objects: Vec::new(),
            block_waits: Vec::new(),
            next_block_wait_id: 1,
            fake_block_backends: Vec::new(),
            block_write_paths: Vec::new(),
            next_block_write_path_id: 1,
            block_request_queues: Vec::new(),
            next_block_request_queue_id: 1,
            block_pending_io_policies: Vec::new(),
            next_block_pending_io_policy_id: 1,
            file_objects: Vec::new(),
            directory_objects: Vec::new(),
            next_directory_object_id: 1,
            file_handle_capabilities: Vec::new(),
            fs_waits: Vec::new(),
            next_fs_wait_id: 1,
            harts: Vec::new(),
            scheduler_decisions: Vec::new(),
            runnable_queues: Vec::new(),
            cross_hart_scheduler_decisions: Vec::new(),
            next_cross_hart_scheduler_decision_id: 1,
            hart_event_attributions: Vec::new(),
            next_hart_event_attribution_id: 1,
            socket_objects: Vec::new(),
            network_stack_adapters: Vec::new(),
            endpoint_objects: Vec::new(),
            next_endpoint_object_id: 1,
            display_capabilities: Vec::new(),
            display_objects: Vec::new(),
            framebuffer_objects: Vec::new(),
            framebuffer_writes: Vec::new(),
            framebuffer_flush_regions: Vec::new(),
            display_event_logs: Vec::new(),
            display_snapshot_barriers: Vec::new(),
            framebuffer_benchmarks: Vec::new(),
            next_framebuffer_benchmark_id: 1,
            guest_address_spaces: Vec::new(),
            vma_regions: Vec::new(),
            page_objects: Vec::new(),
            guest_memory_faults: Vec::new(),
            guest_memory_operations: Vec::new(),
            framebuffer_dirty_regions: Vec::new(),
            next_framebuffer_dirty_region_id: 1,
            buffer_cache_objects: Vec::new(),
            next_buffer_cache_object_id: 1,
            block_page_objects: Vec::new(),
            block_recovery_benchmarks: Vec::new(),
            next_block_recovery_benchmark_id: 1,
            block_driver_cleanups: Vec::new(),
            driver_store_bindings: Vec::new(),
            next_driver_store_binding_id: 1,
            device_capabilities: Vec::new(),
            capabilities: Vec::new(),
            display_cleanups: Vec::new(),
            next_display_cleanup_id: 1,
            framebuffer_mappings: Vec::new(),
            framebuffer_window_leases: Vec::new(),
            tasks: Vec::new(),
            runtime_activations: Vec::new(),
            transactions: Vec::new(),
            next_transaction_id: 1,
            socket_waits: Vec::new(),
            io_waits: Vec::new(),
            activation_contexts: Vec::new(),
            activation_waits: Vec::new(),
            activation_cleanups: Vec::new(),
            saved_contexts: Vec::new(),
            timer_interrupts: Vec::new(),
            ipi_events: Vec::new(),
            preemptions: Vec::new(),
            irq_events: Vec::new(),
        }
    }
}

} // verus!
