use semantic_core::graph::SemanticGraph;

#[test]
fn empty_graph_passes_every_audit() {
    let graph = SemanticGraph::new();
    assert!(graph.check_invariants().is_ok());
    assert_eq!(graph.block_wait_count(), 0);
}
