use semantic_core::base::{
    BlockPageObjectRecord, CapabilityRecord, DeviceObjectRecord, DisplayCapabilityRecord, DisplayObjectRecord,
    FramebufferObjectRecord, FramebufferWriteRecord, ResourceRecord, StoreRecord,
};
use semantic_core::errors::SemanticInvariantError;
use semantic_core::graph::SemanticGraph;
use semantic_core::types::{
    BlockPageObjectState, BlockRequestOperation, BufferCacheObjectState, ContractObjectKind, ContractObjectRef,
    DeviceObjectState, DisplayCapabilityState, DisplayObjectState, FramebufferDirtyRegionState,
    FramebufferObjectState, FramebufferWriteState, ResourceKind, StoreState,
};

fn page() -> ContractObjectRef {
    ContractObjectRef { kind: ContractObjectKind::PageObject, id: 30, generation: 1 }
}

fn cache_graph() -> SemanticGraph {
    let mut g = SemanticGraph::new();
    g.resources.push(ResourceRecord { id: 7, generation: 1, kind: ResourceKind::BlockDevice, live: true });
    g.device_objects.push(DeviceObjectRecord {
        id: 3,
        generation: 1,
        class: "block-device".to_string(),
        resource: 7,
        resource_generation: 1,
        state: DeviceObjectState::Registered,
    });
    assert!(g.record_block_device_object_with_id(1, "disk0", 3, 1, 512, 2048, false, 128, ""));
    assert!(g.record_block_range_object_with_id(5, 1, 1, 0, 8, ""));
    g.block_page_objects.push(BlockPageObjectRecord {
        id: 6,
        generation: 1,
        block_dma_buffer: 7,
        block_dma_buffer_generation: 1,
        block_device: 1,
        block_device_generation: 1,
        block_range: 5,
        block_range_generation: 1,
        aspace: 8,
        vma_region: 9,
        page: page(),
        page_dirty_generation: 2,
        page_offset: 0,
        byte_len: 4096,
        operation: BlockRequestOperation::Read,
        state: BlockPageObjectState::Integrated,
    });
    g
}

#[test]
fn buffer_cache_object_records_an_integrated_page() {
    let mut g = cache_graph();
    assert_eq!(
        g.validate_buffer_cache_object(1, 6, 1, page(), 3, 0, 1024, BufferCacheObjectState::Clean, 1),
        Err("buffer cache object page ref does not match integration")
    );
    assert_eq!(
        g.validate_buffer_cache_object(1, 6, 1, page(), 2, 0, 8192, BufferCacheObjectState::Clean, 1),
        Err("buffer cache object byte range exceeds integrated page")
    );
    assert_eq!(
        g.validate_buffer_cache_object(1, 6, 1, page(), 2, 0, 1024, BufferCacheObjectState::Invalidated, 1),
        Err("buffer cache object cannot be recorded as invalidated")
    );
    assert!(g.record_buffer_cache_object_with_id(1, 6, 1, page(), 2, 0, 1024, BufferCacheObjectState::Dirty, 1, ""));
    assert_eq!(g.buffer_cache_object_count(), 1);
    assert_eq!(g.buffer_cache_objects()[0].block_dma_buffer, 7);
    assert!(g.check_buffer_cache_object_invariants().is_ok());
    assert_eq!(
        g.validate_buffer_cache_object(2, 6, 1, page(), 2, 1024, 1024, BufferCacheObjectState::Clean, 1),
        Err("buffer cache object page range already cached")
    );
    g.block_page_objects.clear();
    assert_eq!(
        g.check_buffer_cache_object_invariants(),
        Err(SemanticInvariantError::BufferCacheObjectMissingBlockPageObject { buffer_cache_object: 1, block_page_object: 6 })
    );
}

#[test]
fn buffer_cache_audit_reports_wrong_epoch_and_missing_event() {
    let mut g = cache_graph();
    assert!(g.record_buffer_cache_object_with_id(1, 6, 1, page(), 2, 0, 1024, BufferCacheObjectState::Clean, 1, ""));
    let mut h = cache_graph();
    assert!(h.record_buffer_cache_object_with_id(1, 6, 1, page(), 2, 0, 1024, BufferCacheObjectState::Clean, 1, ""));
    g.buffer_cache_objects[0].coherency_epoch = 0;
    assert_eq!(
        g.check_buffer_cache_object_invariants(),
        Err(SemanticInvariantError::BufferCacheObjectInvalid { buffer_cache_object: 1 })
    );
    let last = h.event_log.events.len() - 1;
    h.event_log.events.remove(last);
    assert_eq!(
        h.check_buffer_cache_object_invariants(),
        Err(SemanticInvariantError::BufferCacheObjectMissingEvent { buffer_cache_object: 1 })
    );
}

fn dirty_graph() -> SemanticGraph {
    let mut g = SemanticGraph::new();
    g.stores.push(StoreRecord {
        id: 2,
        generation: 1,
        role: "app".to_string(),
        package: "compositor".to_string(),
        state: StoreState::Running,
    });
    g.framebuffer_writes.push(FramebufferWriteRecord {
        id: 6,
        generation: 1,
        owner_store: 2,
        owner_store_generation: 1,
        display_capability: 3,
        display_capability_generation: 1,
        display: 4,
        display_generation: 1,
        framebuffer: 5,
        framebuffer_generation: 1,
        x: 0,
        y: 0,
        width: 16,
        height: 8,
        byte_offset: 0,
        byte_len: 512,
        pixel_format: "xrgb8888".to_string(),
        payload_digest: 99,
        recorded_at_event: 0,
        state: FramebufferWriteState::Applied,
    });
    assert!(g.record_framebuffer_dirty_region_with_id(1, 2, 1, 6, 1, None, None, FramebufferDirtyRegionState::Dirty,
        0, 0, 16, 8, 0, 512, 99, ""));
    g
}

#[test]
fn dirty_region_audit_faults() {
    let mut g = dirty_graph();
    assert!(g.check_framebuffer_dirty_region_invariants().is_ok());
    g.stores.clear();
    assert_eq!(
        g.check_framebuffer_dirty_region_invariants(),
        Err(SemanticInvariantError::FramebufferDirtyRegionMissingStore { framebuffer_dirty_region: 1, store: 2 })
    );
    let mut g = dirty_graph();
    g.framebuffer_writes.clear();
    assert_eq!(
        g.check_framebuffer_dirty_region_invariants(),
        Err(SemanticInvariantError::FramebufferDirtyRegionMissingWrite { framebuffer_dirty_region: 1, framebuffer_write: 6 })
    );
    let mut g = dirty_graph();
    g.framebuffer_dirty_regions[0].payload_digest = 98;
    assert_eq!(
        g.check_framebuffer_dirty_region_invariants(),
        Err(SemanticInvariantError::FramebufferDirtyRegionInvalid { framebuffer_dirty_region: 1 })
    );
    let mut g = dirty_graph();
    g.event_log.events.clear();
    assert_eq!(
        g.check_framebuffer_dirty_region_invariants(),
        Err(SemanticInvariantError::FramebufferDirtyRegionMissingEvent { framebuffer_dirty_region: 1 })
    );
}

fn cleaned_graph() -> SemanticGraph {
    let mut g = SemanticGraph::new();
    g.stores.push(StoreRecord {
        id: 10,
        generation: 1,
        role: "app".to_string(),
        package: "compositor".to_string(),
        state: StoreState::Running,
    });
    g.display_capabilities.push(DisplayCapabilityRecord {
        id: 20,
        generation: 1,
        owner_store: 10,
        owner_store_generation: 1,
        display: 30,
        display_generation: 1,
        framebuffer: 40,
        framebuffer_generation: 1,
        operations: Vec::new(),
        capability: 50,
        capability_generation: 1,
        state: DisplayCapabilityState::Active,
    });
    g.capabilities.push(CapabilityRecord {
        id: 50,
        generation: 1,
        subject: "compositor".to_string(),
        object_ref: None,
        operations: Vec::new(),
        owner_store: Some(10),
        owner_store_generation: Some(1),
        revoked: false,
    });
    g.display_objects.push(DisplayObjectRecord {
        id: 30,
        generation: 1,
        framebuffer: 40,
        framebuffer_generation: 1,
        state: DisplayObjectState::Registered,
    });
    g.framebuffer_objects.push(FramebufferObjectRecord { id: 40, generation: 1, state: FramebufferObjectState::Registered });
    assert!(g.cleanup_display_for_store_with_id(5, 10, 1, 20, 1, 30, 1, 40, 1, "fault", ""));
    g
}

#[test]
fn display_cleanup_audit_faults() {
    let mut g = cleaned_graph();
    assert!(g.check_display_cleanup_invariants().is_ok());
    g.display_cleanups[0].reason = String::new();
    assert_eq!(g.check_display_cleanup_invariants(), Err(SemanticInvariantError::DisplayCleanupInvalid { cleanup: 5 }));
    let mut g = cleaned_graph();
    g.display_capabilities.clear();
    assert_eq!(
        g.check_display_cleanup_invariants(),
        Err(SemanticInvariantError::DisplayCleanupMissingDisplayCapability { cleanup: 5, display_capability: 20 })
    );
    let mut g = cleaned_graph();
    g.display_capabilities[0].state = DisplayCapabilityState::Active;
    assert_eq!(g.check_display_cleanup_invariants(), Err(SemanticInvariantError::DisplayCleanupInvalid { cleanup: 5 }));
    let mut g = cleaned_graph();
    g.capabilities[0].revoked = false;
    assert_eq!(g.check_display_cleanup_invariants(), Err(SemanticInvariantError::DisplayCleanupInvalid { cleanup: 5 }));
    let mut g = cleaned_graph();
    g.event_log.events.clear();
    assert_eq!(g.check_display_cleanup_invariants(), Err(SemanticInvariantError::DisplayCleanupMissingEvent { cleanup: 5 }));
}
