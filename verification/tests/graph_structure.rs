//! Structural tests of the fixed graph and its adjacency index.

use context_engine::graph::{context_graph, NodeCategory};

#[test]
fn graph_layout() {
    let g = context_graph();
    assert_eq!(g.nodes.len(), 43);
    assert_eq!(g.edges.len(), 49);
    assert!(matches!(g.category_of(0), NodeCategory::Sensor));
    assert!(matches!(g.category_of(16), NodeCategory::Feature));
    assert!(matches!(g.category_of(28), NodeCategory::State));
    assert_eq!(g.label_of(0), "Velocity");
    assert_eq!(g.label_of(42), "FACE: SURPRISE");
}

#[test]
fn node_ids_are_unique() {
    let g = context_graph();
    assert!(g.ids_unique());
}

#[test]
fn incoming_index_matches_edges() {
    let g = context_graph();
    // FT_HOLDING (17) is fed by IN_FIST (2) at 0.9 and IN_PINCH (3) at 0.8.
    assert_eq!(g.incoming_edges(17), &vec![(2usize, 900_000i64), (3usize, 800_000i64)]);
    // ST_IDLE (28) is only inhibited by FT_ACTIVE (16).
    assert_eq!(g.incoming_edges(28), &vec![(16usize, -600_000i64)]);
    // IN_VEL (0) is a sensor with no incoming edges.
    assert!(g.incoming_edges(0).is_empty());
    // ST_NO (37) is driven by FT_DISAPPROVAL (24) and inhibited by ST_YES (36).
    assert_eq!(g.incoming_edges(37), &vec![(24usize, 1_000_000i64), (36usize, -2_000_000i64)]);
}
