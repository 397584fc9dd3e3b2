use semantic_core::base::{
    HartRecord, NetworkStackAdapterRecord, QueueObjectRecord, RunnableQueueRecord, SchedulerDecisionRecord,
    SocketObjectRecord, StoreRecord,
};
use semantic_core::graph::SemanticGraph;
use semantic_core::types::{
    DescriptorObjectAccess, HartState, NetworkStackAdapterState, QueueObjectState, RunnableQueueState,
    SchedulerDecisionState, SocketObjectState, StoreState,
};

#[test]
fn descriptor_slots_are_unique_per_queue_generation() {
    let mut g = SemanticGraph::new();
    g.queue_objects.push(QueueObjectRecord { id: 4, generation: 1, depth: 2, state: QueueObjectState::Registered });
    assert_eq!(
        g.validate_descriptor_object(1, 4, 1, 2, DescriptorObjectAccess::ReadOnly, 64),
        Err("descriptor object slot is outside queue depth")
    );
    assert_eq!(
        g.validate_descriptor_object(1, 4, 1, 0, DescriptorObjectAccess::Execute, 64),
        Err("descriptor object access is unsupported")
    );
    assert_eq!(
        g.validate_descriptor_object(1, 4, 1, 0, DescriptorObjectAccess::ReadOnly, 0),
        Err("descriptor object length is zero")
    );
    assert!(g.record_descriptor_object_with_id(1, 4, 1, 0, DescriptorObjectAccess::ReadWrite, 64, "rx"));
    assert_eq!(g.descriptor_object_count(), 1);
    assert_eq!(g.next_descriptor_object_id, 2);
    assert_eq!(
        g.validate_descriptor_object(2, 4, 1, 0, DescriptorObjectAccess::ReadOnly, 64),
        Err("descriptor object slot already exists for queue generation")
    );
    assert_eq!(
        g.validate_descriptor_object(1, 4, 1, 1, DescriptorObjectAccess::ReadOnly, 64),
        Err("descriptor object already exists")
    );
    assert!(g.record_descriptor_object_with_id(2, 4, 1, 1, DescriptorObjectAccess::WriteOnly, 64, "tx"));
    assert!(g.check_descriptor_object_invariants().is_ok());
    assert!(g.check_invariants().is_ok());
}

fn network_graph() -> SemanticGraph {
    let mut g = SemanticGraph::new();
    g.stores.push(StoreRecord {
        id: 2,
        generation: 1,
        role: "app".to_string(),
        package: "web".to_string(),
        state: StoreState::Running,
    });
    g.network_stack_adapters.push(NetworkStackAdapterRecord { id: 3, generation: 1, state: NetworkStackAdapterState::Bound });
    g.socket_objects.push(SocketObjectRecord {
        id: 5,
        generation: 1,
        adapter: 3,
        adapter_generation: 1,
        owner_store: 2,
        owner_store_generation: 1,
        family: "inet".to_string(),
        transport: "tcp".to_string(),
        state: SocketObjectState::Created,
    });
    g
}

#[test]
fn endpoint_stays_unbound_until_the_socket_binds() {
    let mut g = network_graph();
    assert_eq!(
        g.validate_endpoint_object(1, 5, 1, [127, 0, 0, 1], 0, [0, 0, 0, 0], 0),
        Err("endpoint object must remain unbound before N13")
    );
    assert_eq!(
        g.validate_endpoint_object(1, 5, 1, [0, 0, 0, 0], 80, [0, 0, 0, 0], 0),
        Err("endpoint object must remain unbound before N13")
    );
    assert_eq!(g.validate_endpoint_object(0, 5, 1, [0; 4], 0, [0; 4], 0), Err("endpoint object id=0 is invalid"));
    assert_eq!(
        g.validate_endpoint_object(1, 5, 2, [0; 4], 0, [0; 4], 0),
        Err("endpoint object socket generation is missing or inactive")
    );
    assert!(g.record_endpoint_object_with_id(1, 5, 1, [0; 4], 0, [0; 4], 0, "ep"));
    let e = &g.endpoint_objects()[0];
    assert_eq!(e.family, "inet");
    assert_eq!(e.transport, "tcp");
    assert_eq!(e.owner_store, 2);
    assert_eq!(
        g.validate_endpoint_object(2, 5, 1, [0; 4], 0, [0; 4], 0),
        Err("endpoint object socket generation already has endpoint")
    );
    assert!(g.check_endpoint_object_invariants().is_ok());
}

#[test]
fn endpoint_requires_live_owner_store() {
    let mut g = network_graph();
    g.stores[0].state = StoreState::Cleaning;
    assert_eq!(g.validate_endpoint_object(1, 5, 1, [0; 4], 0, [0; 4], 0), Err("endpoint object owner store is not live"));
    let mut g = network_graph();
    g.network_stack_adapters[0].state = NetworkStackAdapterState::Unbound;
    assert_eq!(
        g.validate_endpoint_object(1, 5, 1, [0; 4], 0, [0; 4], 0),
        Err("endpoint object adapter generation is missing or inactive")
    );
}

fn hart(id: u64, generation: u64, state: HartState) -> HartRecord {
    HartRecord {
        id,
        generation,
        hardware_id: id,
        label: format!("hart{id}"),
        boot: id == 1,
        state,
        current_activation: None,
        current_activation_generation: None,
    }
}

fn scheduler_graph() -> SemanticGraph {
    let mut g = SemanticGraph::new();
    g.harts.push(hart(1, 1, HartState::Running));
    g.harts.push(hart(2, 3, HartState::Idle));
    g.runnable_queues.push(RunnableQueueRecord {
        id: 7,
        generation: 1,
        owner_hart: Some(2),
        owner_hart_generation: Some(3),
        state: RunnableQueueState::Active,
        entries: Vec::new(),
    });
    g.scheduler_decisions.push(SchedulerDecisionRecord {
        id: 9,
        generation: 1,
        queue: 7,
        queue_generation: 1,
        selected_activation: 11,
        selected_activation_generation: 1,
        state: SchedulerDecisionState::Recorded,
    });
    g
}

#[test]
fn cross_hart_decision_is_attributed_to_both_harts() {
    let mut g = scheduler_graph();
    assert_eq!(g.validate_cross_hart_scheduler_decision(1, 9, 1, 1, 1, 2, 3, "balance"), Ok((0, 0)));
    assert!(g.record_cross_hart_scheduler_decision_with_id(1, 9, 1, 1, 1, 2, 3, "balance", "n"));
    assert_eq!(g.cross_hart_scheduler_decision_count(), 1);
    let c = &g.cross_hart_scheduler_decisions()[0];
    assert_eq!(c.queue, 7);
    assert_eq!(c.selected_activation, 11);
    assert_eq!(c.queue_owner_hart_generation, 3);
    assert_eq!(g.hart_event_attributions.len(), 2);
    assert_eq!(g.hart_event_attributions[0].hart, 1);
    assert_eq!(g.hart_event_attributions[1].hart, 2);
    assert!(g.check_cross_hart_scheduler_invariants().is_ok());
}

#[test]
fn cross_hart_decision_errors() {
    let mut g = scheduler_graph();
    assert_eq!(
        g.validate_cross_hart_scheduler_decision(1, 9, 1, 2, 3, 2, 3, "x"),
        Err("cross-hart scheduler decision requires distinct harts")
    );
    assert_eq!(
        g.validate_cross_hart_scheduler_decision(1, 9, 1, 1, 1, 2, 3, ""),
        Err("cross-hart scheduler decision reason is empty")
    );
    assert_eq!(
        g.validate_cross_hart_scheduler_decision(1, 9, 2, 1, 1, 2, 3, "x"),
        Err("cross-hart scheduler decision base decision is missing")
    );
    assert_eq!(
        g.validate_cross_hart_scheduler_decision(1, 9, 1, 2, 3, 1, 1, "x"),
        Err("cross-hart scheduler decision queue owner mismatch")
    );
    g.harts[1].state = HartState::Parked;
    assert_eq!(
        g.validate_cross_hart_scheduler_decision(1, 9, 1, 1, 1, 2, 3, "x"),
        Err("cross-hart scheduler decision target hart is inactive")
    );
}
