use semantic_core::graph::SemanticGraph;
use semantic_core::guest_memory::{
    GuestAddressSpaceRecord, GuestAddressSpaceRef, GuestMemoryFaultRecord, GuestMemoryManager, GuestMemoryOwnerRef,
    GuestMemoryPerms, GuestRange, PageObjectRecord, PageObjectRef, VmaRegionRecord, VmaRegionRef,
};

fn manager() -> GuestMemoryManager {
    let aspace = GuestAddressSpaceRef { id: 1, generation: 1 };
    let region = VmaRegionRef { id: 2, generation: 1 };
    let page = PageObjectRef { id: 3, generation: 1 };
    GuestMemoryManager {
        address_spaces: vec![GuestAddressSpaceRecord {
            aspace,
            generation: 1,
            owner: GuestMemoryOwnerRef { id: 9, generation: 1 },
            vma_generation: 1,
            page_map_generation: 1,
            root_region: Some(region),
        }],
        regions: vec![VmaRegionRecord {
            region,
            generation: 1,
            aspace,
            range: GuestRange { start: 0x1000, len: 0x1000 },
            backing: page,
            perms: GuestMemoryPerms { read: true, write: true, execute: false },
        }],
        pages: vec![PageObjectRecord { page, generation: 1, dirty_generation: 1 }],
        fault_history: vec![GuestMemoryFaultRecord { id: 4, generation: 1, page, reason: "write".to_string() }],
        operations: Vec::new(),
    }
}

#[test]
fn guest_memory_loads_consistent_records_once() {
    let mut g = SemanticGraph::new();
    let m = manager();
    assert!(g.record_guest_memory_manager(&m));
    assert_eq!(g.guest_address_space_count(), 1);
    assert_eq!(g.vma_region_count(), 1);
    assert_eq!(g.page_object_count(), 1);
    assert_eq!(g.guest_memory_fault_count(), 1);
    assert_eq!(g.guest_memory_operation_count(), 0);
    assert_eq!(g.vma_regions()[0].range, GuestRange { start: 0x1000, len: 0x1000 });
    assert!(g.check_guest_memory_invariants().is_ok());
    assert!(!g.record_guest_memory_manager(&m));
    assert_eq!(g.vma_region_count(), 1);
}

#[test]
fn guest_memory_refuses_dangling_references() {
    let mut g = SemanticGraph::new();
    let mut m = manager();
    m.regions[0].backing = PageObjectRef { id: 3, generation: 2 };
    assert!(!g.record_guest_memory_manager(&m));
    assert_eq!(g.vma_region_count(), 0);
    let mut m = manager();
    m.fault_history[0].reason = String::new();
    assert!(!g.record_guest_memory_manager(&m));
    let mut m = manager();
    m.pages.push(PageObjectRecord { page: PageObjectRef { id: 3, generation: 1 }, generation: 1, dirty_generation: 1 });
    assert!(!g.record_guest_memory_manager(&m));
    assert!(g.check_invariants().is_ok());
}
