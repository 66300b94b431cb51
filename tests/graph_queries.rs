use shader_graph::{Dim, Direction, Graph, GraphData, GraphError, Node, NodeIndex, TypeName, TypedValue};

fn vec3() -> Box<TypeName> {
    Box::new(TypeName::Vec(3))
}

#[test]
fn empty_graph_has_no_cycle() {
    let g = Graph::default();
    assert_eq!(g.node_count(), 0);
    assert_eq!(g.edge_count(), 0);
    assert!(!g.has_cycle());
    assert!(g.outputs().is_empty());
}

#[test]
fn nodes_without_edges_have_no_cycle() {
    let mut g = Graph::new();
    for i in 0..5u32 {
        g.add_node(Node::Input(i, vec3()));
    }
    g.add_node(Node::Add);
    g.add_node(Node::Output(0, vec3()));
    assert!(!g.has_cycle());
}

#[test]
fn three_node_cycle_is_detected() {
    let mut g = Graph::new();
    let a = g.add_node(Node::Add);
    let b = g.add_node(Node::Multiply);
    let c = g.add_node(Node::Sin);
    g.add_edge(a, b, 0);
    g.add_edge(b, c, 0);
    assert!(!g.has_cycle());
    g.add_edge(c, a, 1);
    assert!(g.has_cycle());
}

#[test]
fn three_node_diamond_is_acyclic() {
    let mut g = Graph::new();
    let a = g.add_node(Node::Input(0, vec3()));
    let b = g.add_node(Node::Normalize);
    let c = g.add_node(Node::Dot);
    g.add_edge(a, b, 0);
    g.add_edge(a, c, 0);
    g.add_edge(b, c, 1);
    assert!(!g.has_cycle());
}

#[test]
fn self_loop_is_a_cycle() {
    let mut g = Graph::new();
    let a = g.add_node(Node::Floor);
    g.add_edge(a, a, 0);
    assert!(g.has_cycle());
}

#[test]
fn parallel_edges_are_not_a_cycle() {
    let mut g = Graph::new();
    let a = g.add_node(Node::Input(0, vec3()));
    let b = g.add_node(Node::Add);
    g.add_edge(a, b, 0);
    g.add_edge(a, b, 1);
    assert!(!g.has_cycle());
    assert_eq!(g.arguments(b), vec![a, a]);
}

#[test]
fn outputs_are_output_sinks() {
    let mut g = Graph::new();
    let i = g.add_node(Node::Input(0, vec3()));
    let o1 = g.add_node(Node::Output(0, vec3()));
    let s = g.add_node(Node::Sin);
    let o2 = g.add_node(Node::Output(1, vec3()));
    g.add_edge(i, s, 0);
    g.add_edge(s, o2, 0);
    assert_eq!(g.outputs(), vec![o1, o2]);
}

#[test]
fn output_with_outgoing_edge_is_not_a_sink() {
    let mut g = Graph::new();
    let o1 = g.add_node(Node::Output(0, vec3()));
    let o2 = g.add_node(Node::Output(1, vec3()));
    let n = g.add_node(Node::Normalize);
    assert_eq!(g.outputs(), vec![o1, o2]);
    g.add_edge(o1, n, 0);
    assert_eq!(g.outputs(), vec![o2]);
}

#[test]
fn arguments_follow_slots() {
    let mut g = Graph::new();
    let a = g.add_node(Node::Input(0, vec3()));
    let b = g.add_node(Node::Input(1, vec3()));
    let c = g.add_node(Node::Constant(TypedValue::Float(0.5f64.to_bits())));
    let mix = g.add_node(Node::Mix);
    g.add_edge(c, mix, 2);
    g.add_edge(a, mix, 0);
    g.add_edge(b, mix, 1);
    assert_eq!(g.arguments(mix), vec![a, b, c]);
}

#[test]
fn arguments_of_node_without_edges_are_empty() {
    let mut g = Graph::new();
    let a = g.add_node(Node::Input(0, vec3()));
    assert!(g.arguments(a).is_empty());
    assert!(g.arguments(NodeIndex::new(7)).is_empty());
}

#[test]
fn arguments_with_equal_slots_keep_both_sources() {
    let mut g = Graph::new();
    let a = g.add_node(Node::Input(0, vec3()));
    let b = g.add_node(Node::Input(1, vec3()));
    let c = g.add_node(Node::Input(2, vec3()));
    let add = g.add_node(Node::Add);
    g.add_edge(c, add, 1);
    g.add_edge(a, add, 0);
    g.add_edge(b, add, 0);
    let args = g.arguments(add);
    assert_eq!(args.len(), 3);
    assert_eq!(args[2], c);
    assert!(args[..2].contains(&a) && args[..2].contains(&b));
}

#[test]
fn neighbors_default_to_incoming() {
    let mut g = Graph::new();
    let a = g.add_node(Node::Input(0, vec3()));
    let b = g.add_node(Node::Input(1, vec3()));
    let add = g.add_node(Node::Add);
    let out = g.add_node(Node::Output(0, vec3()));
    g.add_edge(a, add, 0);
    g.add_edge(b, add, 1);
    g.add_edge(add, out, 0);
    assert_eq!(g.neighbors(add, None), vec![b, a]);
    assert_eq!(g.neighbors(add, Some(Direction::Incoming)), vec![b, a]);
    assert_eq!(g.neighbors(add, Some(Direction::Outgoing)), vec![out]);
    assert_eq!(g.neighbors(a, Some(Direction::Outgoing)), vec![add]);
    assert!(g.neighbors(a, None).is_empty());
    assert!(g.neighbors(NodeIndex::new(40), Some(Direction::Outgoing)).is_empty());
}

#[test]
fn index_returns_the_added_node() {
    let mut g = Graph::new();
    let nodes = vec![
        Node::Input(3, Box::new(TypeName::Float(true))),
        Node::Uniform(1, Box::new(TypeName::Mat(4, Box::new(TypeName::Float(false))))),
        Node::Constant(TypedValue::Vec2(1.0f64.to_bits(), 2.0f64.to_bits())),
        Node::Construct(Box::new(TypeName::Vec(4))),
        Node::Extract(2),
        Node::Sample,
        Node::Output(0, Box::new(TypeName::Sampler(Box::new(TypeName::Int(true)), Dim::DimCube))),
    ];
    let mut handles = Vec::new();
    for n in &nodes {
        handles.push(g.add_node(n.clone()));
    }
    g.add_edge(handles[0], handles[4], 0);
    for (h, n) in handles.iter().zip(nodes.iter()) {
        assert_eq!(g.index(*h), Ok(n));
    }
    assert_eq!(handles[3].index(), 3);
}

#[test]
fn index_of_unknown_handle_is_an_error() {
    let mut g = Graph::new();
    g.add_node(Node::Add);
    assert_eq!(g.index(NodeIndex::new(1)), Err(GraphError::InvalidHandle));
    assert_eq!(Graph::new().index(NodeIndex::new(0)), Err(GraphError::InvalidHandle));
}

#[test]
fn data_round_trip_keeps_nodes_and_edges() {
    let mut g = Graph::new();
    let a = g.add_node(Node::Input(0, vec3()));
    let b = g.add_node(Node::Uniform(0, vec3()));
    let c = g.add_node(Node::Cross);
    let d = g.add_node(Node::Output(0, vec3()));
    g.add_edge(a, c, 0);
    g.add_edge(b, c, 1);
    g.add_edge(c, d, 0);
    let data = g.to_data();
    assert_eq!(data.nodes.len(), 4);
    assert_eq!(data.edges, vec![(0, 2, 0), (1, 2, 1), (2, 3, 0)]);
    let back = Graph::from_data(&data).unwrap();
    assert_eq!(back.node_count(), 4);
    assert_eq!(back.edge_count(), 3);
    let again = back.to_data();
    assert_eq!(again.nodes, data.nodes);
    assert_eq!(again.edges, data.edges);
    assert_eq!(back.arguments(c), vec![a, b]);
    assert_eq!(back.outputs(), vec![d]);
}

#[test]
fn data_with_dangling_edge_is_rejected() {
    let data = GraphData { nodes: vec![Node::Add, Node::Sin], edges: vec![(0, 1, 0), (1, 2, 0)] };
    assert!(matches!(Graph::from_data(&data), Err(GraphError::InvalidHandle)));
    let empty = GraphData { nodes: vec![], edges: vec![] };
    let g = Graph::from_data(&empty).unwrap();
    assert_eq!(g.node_count(), 0);
}

#[test]
fn clone_keeps_nodes_and_edges() {
    let mut g = Graph::new();
    let a = g.add_node(Node::Round);
    let b = g.add_node(Node::Output(0, vec3()));
    g.add_edge(a, b, 0);
    let h = g.clone();
    g.add_edge(b, a, 0);
    assert!(g.has_cycle());
    assert!(!h.has_cycle());
    assert_eq!(h.to_data().edges, vec![(0, 1, 0)]);
    assert_eq!(h.index(a), Ok(&Node::Round));
}

#[test]
fn arity_by_variant() {
    assert_eq!(Node::Input(0, vec3()).arity(), Some(0));
    assert_eq!(Node::Constant(TypedValue::Float(0)).arity(), Some(0));
    assert_eq!(Node::Output(0, vec3()).arity(), Some(1));
    assert_eq!(Node::Extract(1).arity(), Some(1));
    assert_eq!(Node::Length.arity(), Some(1));
    assert_eq!(Node::Distance.arity(), Some(2));
    assert_eq!(Node::Sample.arity(), Some(2));
    assert_eq!(Node::Refract.arity(), Some(3));
    assert_eq!(Node::Construct(vec3()).arity(), None);
    assert!(Node::Output(0, vec3()).is_output());
    assert!(!Node::Input(0, vec3()).is_output());
}

#[test]
fn type_names_clone_and_compare() {
    let t = TypeName::Sampler(Box::new(TypeName::Mat(3, Box::new(TypeName::Float(true)))), Dim::Dim2D);
    assert_eq!(t.clone(), t);
    assert!(TypeName::Bool < TypeName::Int(false));
    assert!(TypeName::Vec(2) < TypeName::Vec(3));
    assert_ne!(TypeName::Float(false), TypeName::Float(true));
    assert!(Dim::Dim1D < Dim::DimSubpassData);
}

#[test]
fn end_to_end_add_of_two_inputs() {
    let mut g = Graph::default();
    let a = g.add_node(Node::Input(0, vec3()));
    let b = g.add_node(Node::Input(1, vec3()));
    let c = g.add_node(Node::Add);
    let d = g.add_node(Node::Output(0, vec3()));
    g.add_edge(a, c, 0);
    g.add_edge(b, c, 1);
    g.add_edge(c, d, 0);
    assert!(!g.has_cycle());
    assert_eq!(g.outputs(), vec![d]);
    assert_eq!(g.arguments(d), vec![c]);
    assert_eq!(g.arguments(c), vec![a, b]);
    g.add_edge(d, a, 0);
    assert!(g.has_cycle());
}
