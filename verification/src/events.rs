use vstd::prelude::*;
use crate::types::{
    BlockCompletionObjectId, BlockDeviceObjectId, BlockPendingIoAction, BlockPendingIoPolicyId,
    BlockRangeObjectId, BlockRequestObjectId, BlockRequestOperation, BlockRequestQueueId,
    BlockWaitId, BlockWritePathId, ContractObjectRef, CrossHartSchedulerDecisionId,
    DescriptorObjectAccess, DescriptorObjectId, DirectoryEntryKind, DirectoryObjectState, DeviceObjectId, DirectoryObjectId,
    DisplayCapabilityId, DisplayEventLogId, DisplayObjectId, DisplaySnapshotBarrierId,
    EndpointObjectId, EventId, FileHandleCapabilityId, FileObjectId, FramebufferBenchmarkId,
    FramebufferFlushRegionId, FramebufferObjectId, FramebufferWriteId, FsWaitId, FsWaitOperation,
    Generation, HartId, NetworkStackAdapterId, QueueObjectId, RunnableQueueId,
    SchedulerDecisionId, SocketObjectId, StoreId, WaitCancelReason, WaitId, ActivationId, Ipv4Octets,
    FramebufferDirtyRegionId, FramebufferDirtyRegionState, BufferCacheObjectId, BufferCacheObjectState,
    BlockPageObjectId, BlockDmaBufferId, GuestAddressSpaceId, VmaRegionId, BlockRecoveryBenchmarkId,
    BlockDriverCleanupId, HostcallClass, IoCleanupId, TaskId, TransactionId, ActivationWaitId, ActivationCleanupId, DriverStoreBindingId, DeviceCapabilityId, CapabilityId,
    DisplayCleanupId,
};

verus! {

/// The subsystem an event is filed under.
#[derive(Clone, Copy, Debug, PartialEq, Eq, Structural)]
pub enum EventDomain {
    Block,
    Io,
    Network,
    Display,
    Scheduler,
    Wait,
    Capability,
    Command,
    Hostcall,
}

/// What an event records. String payloads travel in `Event::labels`.
#[allow(inconsistent_fields)]
#[derive(Clone, Copy, Debug, PartialEq, Eq, Structural)]
pub enum EventKind {
    WaitCreated { wait: WaitId, generation: Generation },
    WaitResolved { wait: WaitId, generation: Generation },
    WaitCancelled { wait: WaitId, generation: Generation, errno: i32, reason: WaitCancelReason },
    BlockDeviceObjectRecorded {
        block_device: BlockDeviceObjectId,
        device: DeviceObjectId,
        device_generation: Generation,
        sector_size: u32,
        sector_count: u64,
        read_only: bool,
        max_transfer_sectors: u32,
        generation: Generation,
    },
    BlockRangeObjectRecorded {
        block_range: BlockRangeObjectId,
        block_device: BlockDeviceObjectId,
        block_device_generation: Generation,
        start_sector: u64,
        sector_count: u64,
        byte_offset: u64,
        byte_len: u64,
        generation: Generation,
    },
    DescriptorObjectRecorded {
        descriptor: DescriptorObjectId,
        queue: QueueObjectId,
        queue_generation: Generation,
        slot: u16,
        access: DescriptorObjectAccess,
        length: u32,
        generation: Generation,
    },
    BlockWaitCreated {
        block_wait: BlockWaitId,
        wait: WaitId,
        wait_generation: Generation,
        block_request: BlockRequestObjectId,
        block_request_generation: Generation,
        block_device: BlockDeviceObjectId,
        block_device_generation: Generation,
        block_range: BlockRangeObjectId,
        block_range_generation: Generation,
        operation: BlockRequestOperation,
        sequence: u64,
        byte_len: u64,
        generation: Generation,
    },
    BlockWaitResolved {
        block_wait: BlockWaitId,
        wait: WaitId,
        wait_generation: Generation,
        block_completion: BlockCompletionObjectId,
        block_completion_generation: Generation,
        generation: Generation,
    },
    BlockWaitCancelled {
        block_wait: BlockWaitId,
        wait: WaitId,
        wait_generation: Generation,
        reason: WaitCancelReason,
        generation: Generation,
    },
    BlockPendingIoPolicyApplied {
        policy: BlockPendingIoPolicyId,
        block_wait: BlockWaitId,
        block_wait_generation: Generation,
        wait: WaitId,
        wait_generation: Generation,
        block_request: BlockRequestObjectId,
        block_request_generation: Generation,
        retry_request: Option<BlockRequestObjectId>,
        retry_request_generation: Option<Generation>,
        block_device: BlockDeviceObjectId,
        block_device_generation: Generation,
        block_range: BlockRangeObjectId,
        block_range_generation: Generation,
        action: BlockPendingIoAction,
        errno: i32,
        retry_attempt: u32,
        max_retries: u32,
        generation: Generation,
    },
    BlockWritePathRecorded {
        write_path: BlockWritePathId,
        backend: ContractObjectRef,
        block_request: BlockRequestObjectId,
        block_request_generation: Generation,
        block_completion: BlockCompletionObjectId,
        block_completion_generation: Generation,
        block_device: BlockDeviceObjectId,
        block_device_generation: Generation,
        block_range: BlockRangeObjectId,
        block_range_generation: Generation,
        sequence: u64,
        completed_bytes: u64,
        payload_digest: u64,
        generation: Generation,
    },
    BlockRequestQueueRecorded {
        queue: BlockRequestQueueId,
        backend: ContractObjectRef,
        block_device: BlockDeviceObjectId,
        block_device_generation: Generation,
        depth: u32,
        request_count: u32,
        pending_count: u32,
        completed_count: u32,
        first_sequence: u64,
        last_sequence: u64,
        generation: Generation,
    },
    FsWaitCreated {
        fs_wait: FsWaitId,
        wait: WaitId,
        wait_generation: Generation,
        owner_store: StoreId,
        owner_store_generation: Generation,
        file_object: FileObjectId,
        file_object_generation: Generation,
        directory_object: DirectoryObjectId,
        directory_object_generation: Generation,
        file_handle_capability: FileHandleCapabilityId,
        file_handle_capability_generation: Generation,
        operation: FsWaitOperation,
        blocker: ContractObjectRef,
        sequence: u64,
        byte_len: u64,
        generation: Generation,
    },
    FsWaitResolved {
        fs_wait: FsWaitId,
        wait: WaitId,
        wait_generation: Generation,
        generation: Generation,
    },
    FsWaitCancelled {
        fs_wait: FsWaitId,
        wait: WaitId,
        wait_generation: Generation,
        reason: WaitCancelReason,
        generation: Generation,
    },
    CrossHartSchedulerDecisionRecorded {
        cross_decision: CrossHartSchedulerDecisionId,
        scheduler_decision: SchedulerDecisionId,
        scheduler_decision_generation: Generation,
        deciding_hart: HartId,
        deciding_hart_generation: Generation,
        target_hart: HartId,
        target_hart_generation: Generation,
        queue: RunnableQueueId,
        queue_generation: Generation,
        activation: ActivationId,
        activation_generation: Generation,
        generation: Generation,
    },
    EndpointObjectCreated {
        endpoint: EndpointObjectId,
        socket: SocketObjectId,
        socket_generation: Generation,
        adapter: NetworkStackAdapterId,
        adapter_generation: Generation,
        owner_store: StoreId,
        owner_store_generation: Generation,
        local_addr: Ipv4Octets,
        local_port: u16,
        remote_addr: Ipv4Octets,
        remote_port: u16,
        generation: Generation,
    },
    FramebufferBenchmarkRecorded {
        benchmark: FramebufferBenchmarkId,
        owner_store: StoreId,
        owner_store_generation: Generation,
        display: DisplayObjectId,
        display_generation: Generation,
        framebuffer: FramebufferObjectId,
        framebuffer_generation: Generation,
        display_capability: DisplayCapabilityId,
        display_capability_generation: Generation,
        framebuffer_write: FramebufferWriteId,
        framebuffer_write_generation: Generation,
        framebuffer_flush_region: FramebufferFlushRegionId,
        framebuffer_flush_region_generation: Generation,
        display_event_log: DisplayEventLogId,
        display_event_log_generation: Generation,
        display_snapshot_barrier: DisplaySnapshotBarrierId,
        display_snapshot_barrier_generation: Generation,
        sample_frames: u32,
        sample_bytes: u64,
        frame_area_pixels: u64,
        write_nanos: u64,
        flush_nanos: u64,
        measured_nanos: u64,
        budget_nanos: u64,
        throughput_bytes_per_sec: u64,
        flushes_per_sec_milli: u64,
        p50_latency_nanos: u64,
        p99_latency_nanos: u64,
        generation: Generation,
    },
    FramebufferDirtyRegionTracked {
        framebuffer_dirty_region: FramebufferDirtyRegionId,
        owner_store: StoreId,
        owner_store_generation: Generation,
        framebuffer_write: FramebufferWriteId,
        framebuffer_write_generation: Generation,
        framebuffer_flush_region: Option<FramebufferFlushRegionId>,
        framebuffer_flush_region_generation: Option<Generation>,
        display_capability: DisplayCapabilityId,
        display_capability_generation: Generation,
        display: DisplayObjectId,
        display_generation: Generation,
        framebuffer: FramebufferObjectId,
        framebuffer_generation: Generation,
        x: u32,
        y: u32,
        width: u32,
        height: u32,
        byte_offset: u64,
        byte_len: u64,
        payload_digest: u64,
        state: FramebufferDirtyRegionState,
        generation: Generation,
    },
    BufferCacheObjectRecorded {
        buffer_cache_object: BufferCacheObjectId,
        block_page_object: BlockPageObjectId,
        block_page_object_generation: Generation,
        block_dma_buffer: BlockDmaBufferId,
        block_dma_buffer_generation: Generation,
        block_device: BlockDeviceObjectId,
        block_device_generation: Generation,
        block_range: BlockRangeObjectId,
        block_range_generation: Generation,
        aspace: GuestAddressSpaceId,
        vma_region: VmaRegionId,
        page: ContractObjectRef,
        page_dirty_generation: Generation,
        page_offset: u64,
        block_offset: u64,
        byte_len: u64,
        operation: BlockRequestOperation,
        cache_state: BufferCacheObjectState,
        coherency_epoch: u64,
        generation: Generation,
    },
    BlockRecoveryBenchmarkRecorded {
        benchmark: BlockRecoveryBenchmarkId,
        cleanup: BlockDriverCleanupId,
        cleanup_generation: Generation,
        io_cleanup: IoCleanupId,
        io_cleanup_generation: Generation,
        backend: ContractObjectRef,
        block_device: BlockDeviceObjectId,
        block_device_generation: Generation,
        driver_store: StoreId,
        driver_store_generation: Generation,
        device: DeviceObjectId,
        device_generation: Generation,
        driver_binding: DriverStoreBindingId,
        driver_binding_generation: Generation,
        recovery_start_event: EventId,
        recovery_complete_event: EventId,
        cancelled_block_waits: u32,
        cancelled_wait_tokens: u32,
        released_dma_buffers: u32,
        revoked_device_capabilities: u32,
        recovery_nanos: u64,
        budget_nanos: u64,
        generation: Generation,
    },
    DriverStoreBound {
        binding: DriverStoreBindingId,
        driver_store: StoreId,
        driver_store_generation: Generation,
        device: DeviceObjectId,
        device_generation: Generation,
        device_capability: DeviceCapabilityId,
        device_capability_generation: Generation,
        capability: CapabilityId,
        capability_generation: Generation,
        generation: Generation,
    },
    CapabilityRevoked { cap: CapabilityId },
    CapabilityGranted { cap: CapabilityId },
    /// Labels: the transaction's label.
    TransactionBegan { transaction: TransactionId, store: Option<StoreId>, task: Option<TaskId> },
    /// Labels: the step and the summary of its target, in that order.
    CleanupStepApplied { cleanup: TransactionId, observed_generation: Generation },
    TransactionCommitted { transaction: TransactionId },
    /// Labels: the note.
    ActivationBlockedOnWait {
        activation_wait: ActivationWaitId,
        activation: ActivationId,
        activation_generation: Generation,
        wait: WaitId,
        wait_generation: Generation,
    },
    /// Labels: the reason and the note, in that order.
    ActivationCleanedUpForStoreFault {
        cleanup: ActivationCleanupId,
        store: StoreId,
        store_generation: Generation,
        activation: ActivationId,
        activation_generation: Generation,
    },
    /// Labels: the hostcall's label, subject, object and operation, in that order.
    HostcallEntered { class: HostcallClass },
    DisplayCleanupStarted {
        cleanup: DisplayCleanupId,
        owner_store: StoreId,
        owner_store_generation: Generation,
        display_capability: DisplayCapabilityId,
        display_capability_generation: Generation,
        display: DisplayObjectId,
        display_generation: Generation,
        framebuffer: FramebufferObjectId,
        framebuffer_generation: Generation,
        generation: Generation,
    },
    DisplayCleanupCompleted {
        cleanup: DisplayCleanupId,
        owner_store: StoreId,
        owner_store_generation: Generation,
        display_capability: DisplayCapabilityId,
        display_capability_generation: Generation,
        display: DisplayObjectId,
        display_generation: Generation,
        framebuffer: FramebufferObjectId,
        framebuffer_generation: Generation,
        unmapped_framebuffer_mappings: usize,
        released_framebuffer_window_leases: usize,
        revoked_display_capabilities: usize,
        generation: Generation,
    },
    DirectoryObjectRecorded {
        directory_object: DirectoryObjectId,
        file_object: FileObjectId,
        file_object_generation: Generation,
        entry_kind: DirectoryEntryKind,
        file_size: u64,
        content_digest: u64,
        state: DirectoryObjectState,
        generation: Generation,
    },
}

/// One entry of the graph's event log.
pub struct Event {
    pub id: EventId,
    pub domain: EventDomain,
    pub kind: EventKind,
    /// Text payload of the event (names, keys, paths), in the order its kind defines.
    pub labels: Vec<String>,
}

/// The append-only event log. Ids are handed out from `next_event_id` upwards.
pub struct EventLog {
    pub events: Vec<Event>,
    pub next_event_id: EventId,
}

/// Some event of `events` has id `id` and kind `kind`.
pub open spec fn has_event_spec(events: Seq<Event>, id: EventId, kind: EventKind) -> bool {
    exists|j: int| 0 <= j < events.len() && (#[trigger] events[j]).id == id && events[j].kind == kind
}

/// The views of a list of strings.
pub open spec fn label_views(labels: Seq<String>) -> Seq<Seq<char>> {
    Seq::new(labels.len(), |i: int| labels[i]@)
}

/// Some event of `events` has id `id`, kind `kind` and text payload `labels`.
pub open spec fn has_labeled_event_spec(
    events: Seq<Event>,
    id: EventId,
    kind: EventKind,
    labels: Seq<Seq<char>>,
) -> bool {
    exists|j: int|
        0 <= j < events.len() && (#[trigger] events[j]).id == id && events[j].kind == kind
            && label_views(events[j].labels@) == labels
}

/// `new` extends `old` by zero or more events.
pub open spec fn log_extends(old: Seq<Event>, new: Seq<Event>) -> bool {
    &&& old.len() <= new.len()
    &&& forall|j: int| 0 <= j < old.len() ==> #[trigger] new[j] == old[j]
}

pub proof fn lemma_has_event_extends(old: Seq<Event>, new: Seq<Event>, id: EventId, kind: EventKind)
    requires
        log_extends(old, new),
        has_event_spec(old, id, kind),
    ensures
        has_event_spec(new, id, kind),
{
    let j = choose|j: int| 0 <= j < old.len() && (#[trigger] old[j]).id == id && old[j].kind == kind;
    assert(new[j] == old[j]);
}

pub proof fn lemma_has_labeled_event_extends(
    old: Seq<Event>,
    new: Seq<Event>,
    id: EventId,
    kind: EventKind,
    labels: Seq<Seq<char>>,
)
    requires
        log_extends(old, new),
        has_labeled_event_spec(old, id, kind, labels),
    ensures
        has_labeled_event_spec(new, id, kind, labels),
{
    let j = choose|j: int|
        0 <= j < old.len() && (#[trigger] old[j]).id == id && old[j].kind == kind
            && label_views(old[j].labels@) == labels;
    assert(new[j] == old[j]);
}

/// `new` is `old` with one more event, of the given domain and kind and with no text,
/// under the id `old` was about to hand out.
pub open spec fn appended_event(old: EventLog, new: EventLog, domain: EventDomain, kind: EventKind) -> bool {
    &&& new.next_event_id == old.next_event_id + 1
    &&& new.events@.len() == old.events@.len() + 1
    &&& log_extends(old.events@, new.events@)
    &&& new.events@.last().id == old.next_event_id
    &&& new.events@.last().domain == domain
    &&& new.events@.last().kind == kind
    &&& new.events@.last().labels@.len() == 0
}

/// `new` is `old` with one more element at the end.
pub open spec fn appended_one<T>(old: Seq<T>, new: Seq<T>) -> bool {
    &&& new.len() == old.len() + 1
    &&& new.subrange(0, old.len() as int) == old
}

/// The id of the latest event handed out, or 0 before any.
pub open spec fn event_cursor(log: EventLog) -> EventId {
    if log.next_event_id == 0 { 0 } else { (log.next_event_id - 1) as u64 }
}

impl EventLog {
    /// The id of the latest event handed out, or 0 before any.
    pub fn cursor(&self) -> (r: EventId)
        ensures
            r == event_cursor(*self),
    {
        if self.next_event_id == 0 { 0 } else { self.next_event_id - 1 }
    }

    /// An empty log whose first event gets id 1.
    pub fn new() -> (r: EventLog)
        ensures
            r.events@.len() == 0,
            r.next_event_id == 1,
    {
        EventLog { events: Vec::new(), next_event_id: 1 }
    }

    /// Appends an event with the next id and returns that id.
    pub fn push(&mut self, domain: EventDomain, kind: EventKind) -> (id: EventId)
        requires
            old(self).next_event_id < u64::MAX,
        ensures
            id == old(self).next_event_id,
            final(self).next_event_id == id + 1,
            final(self).events@.len() == old(self).events@.len() + 1,
            log_extends(old(self).events@, final(self).events@),
            final(self).events@.last().id == id,
            final(self).events@.last().domain == domain,
            final(self).events@.last().kind == kind,
            final(self).events@.last().labels@.len() == 0,
            appended_event(*old(self), *final(self), domain, kind),
    {
        self.push_labeled(domain, kind, Vec::new())
    }

    /// Appends an event carrying a text payload and returns its id.
    pub fn push_labeled(&mut self, domain: EventDomain, kind: EventKind, labels: Vec<String>) -> (id: EventId)
        requires
            old(self).next_event_id < u64::MAX,
        ensures
            id == old(self).next_event_id,
            final(self).next_event_id == id + 1,
            final(self).events@.len() == old(self).events@.len() + 1,
            log_extends(old(self).events@, final(self).events@),
            final(self).events@.last().id == id,
            final(self).events@.last().domain == domain,
            final(self).events@.last().kind == kind,
            final(self).events@.last().labels@ == labels@,
    {
        let id = self.next_event_id;
        self.events.push(Event { id, domain, kind, labels });
        self.next_event_id = id + 1;
        id
    }

    /// Whether some event has id `id` and kind `kind`.
    pub fn has_event(&self, id: EventId, kind: EventKind) -> (r: bool)
        ensures
            r == has_event_spec(self.events@, id, kind),
    {
        let mut i: usize = 0;
        while i < self.events.len()
            invariant
                i <= self.events@.len(),
                forall|j: int| 0 <= j < i ==> !((#[trigger] self.events@[j]).id == id && self.events@[j].kind == kind),
            decreases self.events@.len() - i,
        {
            if self.events[i].id == id && self.events[i].kind == kind {
                return true;
            }
            i += 1;
        }
        false
    }

    /// Whether some event has id `id`, kind `kind` and exactly the text payload `labels`.
    pub fn has_labeled_event(&self, id: EventId, kind: EventKind, labels: &Vec<String>) -> (r: bool)
        ensures
            r == has_labeled_event_spec(self.events@, id, kind, label_views(labels@)),
    {
        let mut i: usize = 0;
        while i < self.events.len()
            invariant
                i <= self.events@.len(),
                forall|j: int| 0 <= j < i ==> !((#[trigger] self.events@[j]).id == id && self.events@[j].kind == kind
                    && label_views(self.events@[j].labels@) == label_views(labels@)),
            decreases self.events@.len() - i,
        {
            if self.events[i].id == id && self.events[i].kind == kind
                && strings_eq(&self.events[i].labels, labels) {
                return true;
            }
            i += 1;
        }
        false
    }
}

/// Whether two lists of strings hold the same texts.
pub fn strings_eq(a: &Vec<String>, b: &Vec<String>) -> (r: bool)
    ensures
        r == (label_views(a@) == label_views(b@)),
{
    if a.len() != b.len() {
        proof {
            assert(label_views(a@).len() != label_views(b@).len());
        }
        return false;
    }
    let mut i: usize = 0;
    while i < a.len()
        invariant
            a@.len() == b@.len(),
            i <= a@.len(),
            forall|j: int| 0 <= j < i ==> (#[trigger] a@[j])@ == b@[j]@,
        decreases a@.len() - i,
    {
        if a[i] != b[i] {
            proof {
                assert(label_views(a@)[i as int] != label_views(b@)[i as int]);
            }
            return false;
        }
        i += 1;
    }
    proof {
        assert(label_views(a@) =~= label_views(b@));
    }
    true
}

} // verus!
