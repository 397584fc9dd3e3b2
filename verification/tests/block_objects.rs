use semantic_core::base::{DeviceObjectRecord, ResourceRecord};
use semantic_core::graph::SemanticGraph;
use semantic_core::types::{DeviceObjectState, ResourceKind};

fn graph_with_block_device() -> SemanticGraph {
    let mut g = SemanticGraph::new();
    g.resources.push(ResourceRecord { id: 7, generation: 1, kind: ResourceKind::BlockDevice, live: true });
    g.device_objects.push(DeviceObjectRecord {
        id: 3,
        generation: 1,
        class: "block-device".to_string(),
        resource: 7,
        resource_generation: 1,
        state: DeviceObjectState::Registered,
    });
    g
}

#[test]
fn block_device_object_is_recorded_and_audited() {
    let mut g = graph_with_block_device();
    assert_eq!(g.validate_block_device_object(1, "disk0", 3, 1, 512, 2048, 128), Ok(()));
    assert!(g.record_block_device_object_with_id(1, "disk0", 3, 1, 512, 2048, false, 128, "boot disk"));
    assert_eq!(g.block_device_object_count(), 1);
    let r = &g.block_device_objects()[0];
    assert_eq!(r.id, 1);
    assert_eq!(r.sector_size, 512);
    assert_eq!(r.recorded_at_event, 1);
    assert_eq!(g.event_log.next_event_id, 2);
    assert!(g.check_block_device_object_invariants().is_ok());
    assert!(g.check_invariants().is_ok());
}

#[test]
fn block_device_object_errors() {
    let g = graph_with_block_device();
    assert_eq!(g.validate_block_device_object(0, "d", 3, 1, 512, 8, 8), Err("block device object id=0 is invalid"));
    assert_eq!(g.validate_block_device_object(1, "", 3, 1, 512, 8, 8), Err("block device object name is empty"));
    assert_eq!(
        g.validate_block_device_object(1, "d", 3, 1, 0, 8, 8),
        Err("block device object contract values must be nonzero")
    );
    assert_eq!(
        g.validate_block_device_object(1, "d", 3, 1, 768, 8, 8),
        Err("block device object sector size is unsupported")
    );
    assert_eq!(
        g.validate_block_device_object(1, "d", 3, 1, 256, 8, 8),
        Err("block device object sector size is unsupported")
    );
    assert_eq!(
        g.validate_block_device_object(1, "d", 3, 2, 512, 8, 8),
        Err("block device object device generation is missing")
    );
}

#[test]
fn block_device_object_refuses_duplicates_and_wrong_devices() {
    let mut g = graph_with_block_device();
    assert!(g.record_block_device_object_with_id(1, "disk0", 3, 1, 4096, 64, true, 16, ""));
    assert_eq!(g.validate_block_device_object(1, "d", 3, 1, 512, 8, 8), Err("block device object already exists"));
    let before = g.event_log.next_event_id;
    assert!(!g.record_block_device_object_with_id(1, "d", 3, 1, 512, 8, false, 8, ""));
    assert_eq!(g.event_log.next_event_id, before);
    assert_eq!(g.block_device_object_count(), 1);

    let mut g2 = graph_with_block_device();
    g2.device_objects[0].class = "net-device".to_string();
    assert_eq!(
        g2.validate_block_device_object(1, "d", 3, 1, 512, 8, 8),
        Err("block device object device class is not block-device")
    );
    let mut g3 = graph_with_block_device();
    g3.resources[0].live = false;
    assert_eq!(
        g3.validate_block_device_object(1, "d", 3, 1, 512, 8, 8),
        Err("block device object must be backed by live block device resource")
    );
    let mut g4 = graph_with_block_device();
    g4.device_objects[0].state = DeviceObjectState::Removed;
    assert_eq!(
        g4.validate_block_device_object(1, "d", 3, 1, 512, 8, 8),
        Err("block device object device is not registered")
    );
}

#[test]
fn block_range_object_byte_extent_is_sector_multiple() {
    let mut g = graph_with_block_device();
    assert!(g.record_block_device_object_with_id(1, "disk0", 3, 1, 512, 2048, false, 128, ""));
    assert_eq!(g.validate_block_range_object(5, 1, 1, 10, 4), Ok((5120, 2048)));
    assert!(g.record_block_range_object_with_id(5, 1, 1, 10, 4, "range"));
    let r = &g.block_range_objects()[0];
    assert_eq!(r.byte_offset, 5120);
    assert_eq!(r.byte_len, 2048);
    assert_eq!(g.block_range_object_count(), 1);
    assert!(g.check_invariants().is_ok());
}

#[test]
fn block_range_object_errors() {
    let mut g = graph_with_block_device();
    assert!(g.record_block_device_object_with_id(1, "disk0", 3, 1, 512, 100, false, 8, ""));
    assert_eq!(g.validate_block_range_object(0, 1, 1, 0, 1), Err("block range object id=0 is invalid"));
    assert_eq!(g.validate_block_range_object(5, 1, 1, 0, 0), Err("block range object identity values must be nonzero"));
    assert_eq!(
        g.validate_block_range_object(5, 1, 2, 0, 1),
        Err("block range object block device generation is missing or inactive")
    );
    assert_eq!(g.validate_block_range_object(5, 1, 1, 100, 1), Err("block range object starts outside block device"));
    assert_eq!(g.validate_block_range_object(5, 1, 1, 98, 4), Err("block range object extends beyond block device"));
    assert_eq!(g.validate_block_range_object(5, 1, 1, 0, 9), Err("block range object exceeds max transfer sectors"));
    assert!(g.record_block_range_object_with_id(5, 1, 1, 0, 8, ""));
    assert_eq!(g.validate_block_range_object(5, 1, 1, 0, 1), Err("block range object already exists"));
}
