//! The graph storage of petgraph, with the contracts this library relies on.

use vstd::prelude::*;
use petgraph::visit::EdgeRef;
use petgraph::graph::Graph as PetGraph;
use crate::graph::{Direction, adjacent};
use crate::model::{EdgeModel, sinks, incoming, has_cycle};
use crate::types::Node;

verus! {

#[verifier::external_type_specification]
#[verifier::external_body]
#[verifier::reject_recursive_types(N)]
#[verifier::reject_recursive_types(E)]
#[verifier::reject_recursive_types(Ty)]
#[verifier::reject_recursive_types(Ix)]
pub struct ExGraph<N, E, Ty, Ix>(PetGraph<N, E, Ty, Ix>);

#[verifier::external_type_specification]
#[verifier::external_body]
pub struct ExDirected(petgraph::Directed);

/// The directed petgraph graph that stores nodes with argument slots on edges.
pub type Store = PetGraph<Node, u32>;

/// The node weights a store holds, by node index.
pub uninterp spec fn store_nodes(g: Store) -> Seq<Node>;

/// The edges a store holds as `(source, target, weight)`, by edge index.
pub uninterp spec fn store_edges(g: Store) -> Seq<EdgeModel>;

/// Relies on `Graph::new`: the graph starts without nodes or edges.
#[verifier::external_body]
pub(crate) fn store_new() -> (r: Store)
    ensures
        store_nodes(r) == Seq::<Node>::empty(),
        store_edges(r) == Seq::<EdgeModel>::empty(),
{
    PetGraph::new()
}

/// Relies on `Graph::add_node`: the node is appended and its index is the
/// previous node count. It panics when the index would be `u32::MAX`.
#[verifier::external_body]
pub(crate) fn store_add_node(g: &mut Store, n: Node) -> (r: u32)
    requires
        store_nodes(*old(g)).len() < u32::MAX,
    ensures
        r == store_nodes(*old(g)).len(),
        store_nodes(*final(g)) == store_nodes(*old(g)).push(n),
        store_edges(*final(g)) == store_edges(*old(g)),
{
    g.add_node(n).index() as u32
}

/// Relies on `Graph::add_edge`: the edge is appended. It panics when an
/// endpoint is not a node or when the edge index would be `u32::MAX`.
#[verifier::external_body]
pub(crate) fn store_add_edge(g: &mut Store, a: u32, b: u32, w: u32)
    requires
        a < store_nodes(*old(g)).len(),
        b < store_nodes(*old(g)).len(),
        store_edges(*old(g)).len() < u32::MAX,
    ensures
        store_nodes(*final(g)) == store_nodes(*old(g)),
        store_edges(*final(g)) == store_edges(*old(g)).push((a, b, w)),
{
    g.add_edge(petgraph::graph::NodeIndex::new(a as usize), petgraph::graph::NodeIndex::new(b as usize), w);
}

/// Relies on `Graph::node_weight`: the weight at an index, or `None` past the
/// last node.
#[verifier::external_body]
pub(crate) fn store_node_weight(g: &Store, a: u32) -> (r: Option<&Node>)
    ensures
        a < store_nodes(*g).len() ==> r == Some(&store_nodes(*g)[a as int]),
        a >= store_nodes(*g).len() ==> r is None,
{
    g.node_weight(petgraph::graph::NodeIndex::new(a as usize))
}

/// Relies on `Clone` for `Graph`: it clones the node and edge lists, and
/// `Node::clone` returns an equal node.
#[verifier::external_body]
pub(crate) fn store_clone(g: &Store) -> (r: Store)
    ensures
        store_nodes(r) == store_nodes(*g),
        store_edges(r) == store_edges(*g),
{
    g.clone()
}

/// Relies on `Graph::node_count`.
#[verifier::external_body]
pub(crate) fn store_node_count(g: &Store) -> (r: usize)
    ensures
        r == store_nodes(*g).len(),
{
    g.node_count()
}

/// Relies on `Graph::edge_count`.
#[verifier::external_body]
pub(crate) fn store_edge_count(g: &Store) -> (r: usize)
    ensures
        r == store_edges(*g).len(),
{
    g.edge_count()
}

/// Relies on `Graph::raw_edges`: every edge as `(source, target, weight)`, by
/// edge index.
#[verifier::external_body]
pub(crate) fn store_raw_edges(g: &Store) -> (r: Vec<EdgeModel>)
    ensures
        r@ == store_edges(*g),
{
    g.raw_edges().iter().map(|e| (e.source().index() as u32, e.target().index() as u32, e.weight)).collect()
}

/// Relies on `petgraph::algo::is_cyclic_directed`: true exactly when the
/// directed graph holds a cycle (a self loop counts). Its depth-first search
/// recurses once per node along a path, so a path of very many nodes can
/// exhaust the thread's stack.
#[verifier::external_body]
pub(crate) fn store_is_cyclic(g: &Store) -> (r: bool)
    ensures
        r == has_cycle(store_edges(*g)),
{
    petgraph::algo::is_cyclic_directed(g)
}

/// Relies on `Graph::externals(Outgoing)`: the nodes without outgoing edges,
/// in increasing index order.
#[verifier::external_body]
pub(crate) fn store_sinks(g: &Store) -> (r: Vec<u32>)
    ensures
        r@ == sinks(store_edges(*g), store_nodes(*g).len()),
{
    g.externals(petgraph::Direction::Outgoing).map(|n| n.index() as u32).collect()
}

/// Relies on `Graph::edges_directed(a, Incoming)`: the edges into `a` as
/// `(source, weight)`, most recently added first; none when `a` is not a node.
#[verifier::external_body]
pub(crate) fn store_incoming(g: &Store, a: u32) -> (r: Vec<(u32, u32)>)
    ensures
        a < store_nodes(*g).len() ==> r@ == incoming(store_edges(*g), a),
        a >= store_nodes(*g).len() ==> r@.len() == 0,
{
    g.edges_directed(petgraph::graph::NodeIndex::new(a as usize), petgraph::Direction::Incoming)
        .map(|e| (e.source().index() as u32, *e.weight()))
        .collect()
}

/// Relies on `Graph::neighbors_directed`: the other endpoints of the edges of
/// `a` in direction `dir`, most recently added edge first; none when `a` is
/// not a node.
#[verifier::external_body]
pub(crate) fn store_neighbors(g: &Store, a: u32, dir: Direction) -> (r: Vec<u32>)
    ensures
        a < store_nodes(*g).len() ==> r@ == adjacent(store_edges(*g), a, dir),
        a >= store_nodes(*g).len() ==> r@.len() == 0,
{
    let dir = match dir {
        Direction::Outgoing => petgraph::Direction::Outgoing,
        Direction::Incoming => petgraph::Direction::Incoming,
    };
    g.neighbors_directed(petgraph::graph::NodeIndex::new(a as usize), dir).map(|n| n.index() as u32).collect()
}

} // verus!
