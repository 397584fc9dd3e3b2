use semantic_core::base::{
    CapabilityRecord, DisplayCapabilityRecord, DisplayObjectRecord, FramebufferMappingRecord,
    FramebufferObjectRecord, FramebufferWindowLeaseRecord, StoreRecord,
};
use semantic_core::errors::SemanticInvariantError;
use semantic_core::graph::SemanticGraph;
use semantic_core::types::{
    ContractObjectKind, ContractObjectRef, DisplayCapabilityState, DisplayCleanupStepKind,
    DisplayCleanupStepStatus, DisplayObjectState, FramebufferMappingState, FramebufferObjectState,
    FramebufferWindowLeaseState, StoreState,
};

fn mapping(id: u64, display_capability: u64) -> FramebufferMappingRecord {
    FramebufferMappingRecord {
        id,
        generation: 1,
        owner_store: 10,
        owner_store_generation: 1,
        display_capability,
        display_capability_generation: 1,
        display: 30,
        display_generation: 1,
        framebuffer: 40,
        framebuffer_generation: 1,
        state: FramebufferMappingState::Active,
    }
}

fn lease(id: u64) -> FramebufferWindowLeaseRecord {
    FramebufferWindowLeaseRecord {
        id,
        generation: 2,
        owner_store: 10,
        owner_store_generation: 1,
        display_capability: 20,
        display_capability_generation: 1,
        display: 30,
        display_generation: 1,
        framebuffer: 40,
        framebuffer_generation: 1,
        state: FramebufferWindowLeaseState::Active,
    }
}

fn display_graph() -> SemanticGraph {
    let mut g = SemanticGraph::new();
    g.stores.push(StoreRecord {
        id: 10,
        generation: 1,
        role: "app".to_string(),
        package: "compositor".to_string(),
        state: StoreState::Running,
    });
    g.display_capabilities.push(DisplayCapabilityRecord {
        id: 20,
        generation: 1,
        owner_store: 10,
        owner_store_generation: 1,
        display: 30,
        display_generation: 1,
        framebuffer: 40,
        framebuffer_generation: 1,
        operations: vec!["write".to_string()],
        capability: 50,
        capability_generation: 1,
        state: DisplayCapabilityState::Active,
    });
    g.capabilities.push(CapabilityRecord {
        id: 50,
        generation: 1,
        subject: "compositor".to_string(),
        object_ref: None,
        operations: vec!["write".to_string()],
        owner_store: Some(10),
        owner_store_generation: Some(1),
        revoked: false,
    });
    g.display_objects.push(DisplayObjectRecord {
        id: 30,
        generation: 1,
        framebuffer: 40,
        framebuffer_generation: 1,
        state: DisplayObjectState::Registered,
    });
    g.framebuffer_objects.push(FramebufferObjectRecord { id: 40, generation: 1, state: FramebufferObjectState::Registered });
    g.framebuffer_mappings.push(mapping(60, 20));
    g.framebuffer_mappings.push(mapping(61, 21));
    g.framebuffer_mappings.push(mapping(62, 20));
    g.framebuffer_window_leases.push(lease(70));
    g
}

fn cleanup(g: &mut SemanticGraph, id: u64) -> bool {
    g.cleanup_display_for_store_with_id(id, 10, 1, 20, 1, 30, 1, 40, 1, "store fault", "note")
}

#[test]
fn display_cleanup_unmaps_releases_and_revokes() {
    let mut g = display_graph();
    assert!(cleanup(&mut g, 5));
    assert_eq!(g.display_cleanup_count(), 1);
    assert_eq!(g.framebuffer_mappings[0].state, FramebufferMappingState::Unmapped);
    assert_eq!(g.framebuffer_mappings[1].state, FramebufferMappingState::Active);
    assert_eq!(g.framebuffer_mappings[2].state, FramebufferMappingState::Unmapped);
    assert_eq!(g.framebuffer_window_leases[0].state, FramebufferWindowLeaseState::Released);
    assert_eq!(g.display_capabilities[0].state, DisplayCapabilityState::Revoked);
    assert!(g.capabilities()[0].revoked);
    let r = &g.display_cleanups()[0];
    assert_eq!(r.started_at_event, 1);
    assert_eq!(r.completed_at_event, 3);
    assert_eq!(
        r.unmapped_framebuffer_mappings,
        vec![
            ContractObjectRef { kind: ContractObjectKind::FramebufferMapping, id: 60, generation: 1 },
            ContractObjectRef { kind: ContractObjectKind::FramebufferMapping, id: 62, generation: 1 },
        ]
    );
    assert_eq!(
        r.released_framebuffer_window_leases,
        vec![ContractObjectRef { kind: ContractObjectKind::FramebufferWindowLease, id: 70, generation: 2 }]
    );
    assert_eq!(
        r.revoked_capabilities,
        vec![ContractObjectRef { kind: ContractObjectKind::Capability, id: 50, generation: 1 }]
    );
    assert_eq!(r.steps.len(), 3);
    assert_eq!(r.steps[0].kind, DisplayCleanupStepKind::UnmapFramebufferMappings);
    assert_eq!(r.steps[0].status, DisplayCleanupStepStatus::Done);
    assert_eq!(r.steps[0].event, Some(1));
    assert_eq!(r.steps[2].event, Some(2));
    assert_eq!(r.steps[2].target, ContractObjectRef { kind: ContractObjectKind::Store, id: 10, generation: 1 });
    assert_eq!(g.event_log.next_event_id, 4);
    assert_eq!(g.next_display_cleanup_id, 6);
    assert!(g.check_display_cleanup_invariants().is_ok());
}

#[test]
fn display_cleanup_repeat_changes_nothing() {
    let mut g = display_graph();
    assert!(cleanup(&mut g, 5));
    let events = g.event_log.next_event_id;
    assert!(cleanup(&mut g, 5));
    assert_eq!(g.event_log.next_event_id, events);
    assert_eq!(g.display_cleanup_count(), 1);
}

#[test]
fn display_cleanup_under_new_id_after_completion_finds_nothing_to_do() {
    let mut g = display_graph();
    assert!(cleanup(&mut g, 5));
    assert!(cleanup(&mut g, 6));
    assert_eq!(g.display_cleanup_count(), 2);
    let r = &g.display_cleanups()[1];
    assert!(r.unmapped_framebuffer_mappings.is_empty());
    assert!(r.revoked_display_capabilities.is_empty());
    assert_eq!(r.steps[2].status, DisplayCleanupStepStatus::SkippedNotPresent);
    assert_eq!(r.completed_at_event, r.started_at_event + 1);
    assert!(g.check_display_cleanup_invariants().is_ok());
}

#[test]
fn display_cleanup_refusals() {
    let mut g = display_graph();
    assert_eq!(g.cleanup_display_for_store_with_id(0, 10, 1, 20, 1, 30, 1, 40, 1, "r", ""), false);
    assert_eq!(g.cleanup_display_for_store_with_id(5, 10, 1, 20, 1, 30, 1, 40, 1, "", ""), false);
    assert_eq!(g.cleanup_display_for_store_with_id(5, 10, 2, 20, 1, 30, 1, 40, 1, "r", ""), false);
    assert_eq!(g.cleanup_display_for_store_with_id(5, 10, 1, 20, 2, 30, 1, 40, 1, "r", ""), false);
    assert_eq!(g.cleanup_display_for_store_with_id(5, 10, 1, 20, 1, 31, 1, 40, 1, "r", ""), false);
    assert_eq!(g.display_cleanup_count(), 0);
    assert_eq!(g.event_log.next_event_id, 1);

    let mut dead = display_graph();
    dead.stores[0].state = StoreState::Dead;
    assert!(!cleanup(&mut dead, 5));

    let mut revoked = display_graph();
    revoked.capabilities[0].revoked = true;
    assert!(!cleanup(&mut revoked, 5));

    let mut no_ledger = display_graph();
    no_ledger.capabilities.clear();
    assert!(!cleanup(&mut no_ledger, 5));

    let mut no_fb = display_graph();
    no_fb.framebuffer_objects[0].state = FramebufferObjectState::Retired;
    assert!(!cleanup(&mut no_fb, 5));

    let mut other = display_graph();
    assert!(cleanup(&mut other, 5));
    other.display_capabilities.push(DisplayCapabilityRecord {
        id: 21,
        generation: 1,
        owner_store: 10,
        owner_store_generation: 1,
        display: 30,
        display_generation: 1,
        framebuffer: 40,
        framebuffer_generation: 1,
        operations: Vec::new(),
        capability: 51,
        capability_generation: 1,
        state: DisplayCapabilityState::Active,
    });
    assert!(!other.cleanup_display_for_store_with_id(5, 10, 1, 21, 1, 30, 1, 40, 1, "r", ""));
}

#[test]
fn display_cleanup_audit_reports_a_mapping_that_was_remapped() {
    let mut g = display_graph();
    assert!(cleanup(&mut g, 5));
    g.framebuffer_mappings[0].state = FramebufferMappingState::Active;
    assert_eq!(
        g.check_display_cleanup_invariants(),
        Err(SemanticInvariantError::DisplayCleanupMissingEffectTarget {
            cleanup: 5,
            target: ContractObjectRef { kind: ContractObjectKind::FramebufferMapping, id: 60, generation: 1 },
        })
    );
    assert!(g.check_invariants().is_err());
}

#[test]
fn display_cleanup_audit_reports_missing_store() {
    let mut g = display_graph();
    assert!(cleanup(&mut g, 5));
    g.stores.clear();
    assert_eq!(
        g.check_display_cleanup_invariants(),
        Err(SemanticInvariantError::DisplayCleanupMissingStore { cleanup: 5, store: 10 })
    );
}
