//! The shader graph container: mutation, validation and structural queries.

use vstd::prelude::*;
use crate::model::{
    GraphModel, EdgeModel, has_cycle, incoming, successors, predecessors, sinks, output_at,
    output_sinks, sorted_by_slot, argument_order, lemma_absent_isolated,
};
use crate::model::within;
use crate::storage::{
    Store, store_nodes, store_edges, store_new, store_add_node, store_add_edge, store_node_weight,
    store_node_count, store_edge_count, store_raw_edges, store_is_cyclic, store_sinks, store_incoming,
    store_neighbors, store_clone,
};
use crate::types::Node;

verus! {

/// A stable handle to a node of a graph: its position in insertion order.
#[derive(Debug, Clone, Copy, PartialEq, Eq, Structural, PartialOrd, Ord, Hash)]
pub struct NodeIndex(pub u32);

impl NodeIndex {
    pub fn new(i: u32) -> (r: NodeIndex)
        ensures
            r.0 == i,
    {
        NodeIndex(i)
    }

    pub fn index(&self) -> (r: u32)
        ensures
            r == self.0,
    {
        self.0
    }
}

/// Which edges of a node a neighbor query follows.
#[derive(Debug, Clone, Copy, PartialEq, Eq, Structural, Hash)]
pub enum Direction {
    /// Edges that leave the node.
    Outgoing,
    /// Edges that enter the node.
    Incoming,
}

/// What can go wrong when a graph is read or rebuilt.
#[derive(Debug, Clone, Copy, PartialEq, Eq, Structural, Hash)]
pub enum GraphError {
    /// A handle that names no node of this graph.
    InvalidHandle,
}

/// A graph as plain values: its nodes by handle and its edges as
/// `(source, target, slot)` in the order they were added. This is the form a
/// graph is stored and restored in.
pub struct GraphData {
    pub nodes: Vec<Node>,
    pub edges: Vec<EdgeModel>,
}

/// A directed multigraph of shader nodes. An edge runs from a producer to a
/// consumer and carries the argument slot it fills at the consumer.
pub struct Graph {
    store: Store,
}

impl View for Graph {
    type V = GraphModel;

    closed spec fn view(&self) -> GraphModel {
        GraphModel { nodes: store_nodes(self.store), edges: store_edges(self.store) }
    }
}

impl Graph {
    /// Well-formed: see [`GraphModel::wf`].
    pub open spec fn wf(&self) -> bool {
        self@.wf()
    }

    /// An empty graph.
    pub fn new() -> (r: Graph)
        ensures
            r.wf(),
            r@.nodes.len() == 0,
            r@.edges.len() == 0,
    {
        Graph { store: store_new() }
    }

    /// Adds a node without edges and returns its handle, the number of nodes
    /// before the call.
    pub fn add_node(&mut self, node: Node) -> (r: NodeIndex)
        requires
            old(self).wf(),
            old(self)@.nodes.len() < u32::MAX,
        ensures
            final(self).wf(),
            r.0 == old(self)@.nodes.len(),
            final(self)@.nodes == old(self)@.nodes.push(node),
            final(self)@.edges == old(self)@.edges,
    {
        let i = store_add_node(&mut self.store, node);
        proof {
            assert forall|k: int| 0 <= k < self@.edges.len() implies (#[trigger] self@.edges[k]).0
                < self@.nodes.len() && self@.edges[k].1 < self@.nodes.len() by {
                assert(self@.edges[k] == old(self)@.edges[k]);
            }
        }
        NodeIndex(i)
    }

    /// Adds an edge from `from` to `to` that fills argument slot `index` of `to`.
    pub fn add_edge(&mut self, from: NodeIndex, to: NodeIndex, index: u32)
        requires
            old(self).wf(),
            from.0 < old(self)@.nodes.len(),
            to.0 < old(self)@.nodes.len(),
            old(self)@.edges.len() < u32::MAX,
        ensures
            final(self).wf(),
            final(self)@.nodes == old(self)@.nodes,
            final(self)@.edges == old(self)@.edges.push((from.0, to.0, index)),
    {
        store_add_edge(&mut self.store, from.0, to.0, index);
        proof {
            assert forall|k: int| 0 <= k < self@.edges.len() implies (#[trigger] self@.edges[k]).0
                < self@.nodes.len() && self@.edges[k].1 < self@.nodes.len() by {
                if k < old(self)@.edges.len() {
                    assert(self@.edges[k] == old(self)@.edges[k]);
                }
            }
        }
    }

    /// The number of nodes.
    pub fn node_count(&self) -> (r: usize)
        ensures
            r == self@.nodes.len(),
    {
        store_node_count(&self.store)
    }

    /// The number of edges.
    pub fn edge_count(&self) -> (r: usize)
        ensures
            r == self@.edges.len(),
    {
        store_edge_count(&self.store)
    }

    /// The node stored under a handle, or `InvalidHandle` when the handle
    /// names no node of this graph.
    pub fn index(&self, index: NodeIndex) -> (r: Result<&Node, GraphError>)
        ensures
            index.0 < self@.nodes.len() ==> r == Ok::<&Node, GraphError>(&self@.nodes[index.0 as int]),
            index.0 >= self@.nodes.len() ==> r == Err::<&Node, GraphError>(GraphError::InvalidHandle),
    {
        match store_node_weight(&self.store, index.0) {
            Some(n) => Ok(n),
            None => Err(GraphError::InvalidHandle),
        }
    }

    /// Whether the edges hold a directed cycle.
    pub fn has_cycle(&self) -> (r: bool)
        ensures
            r == has_cycle(self@.edges),
    {
        store_is_cyclic(&self.store)
    }
}

/// The handles for a sequence of node positions.
pub open spec fn handles(s: Seq<u32>) -> Seq<NodeIndex> {
    s.map_values(|i: u32| NodeIndex(i))
}

/// The handles of the sources in a sequence of `(source, slot)`.
pub open spec fn source_handles(s: Seq<(u32, u32)>) -> Seq<NodeIndex> {
    handles(s.map_values(|e: (u32, u32)| e.0))
}

/// The nodes at the other end of the edges of `a` in direction `dir`, the most
/// recently added edge first.
pub open spec fn adjacent(edges: Seq<EdgeModel>, a: u32, dir: Direction) -> Seq<u32> {
    match dir {
        Direction::Outgoing => successors(edges, a),
        Direction::Incoming => predecessors(edges, a),
    }
}

/// Turns node positions into handles.
fn to_handles(v: Vec<u32>) -> (r: Vec<NodeIndex>)
    ensures
        r@ == handles(v@),
{
    let mut r: Vec<NodeIndex> = Vec::new();
    let mut k: usize = 0;
    while k < v.len()
        invariant
            k <= v@.len(),
            r@ == handles(v@.take(k as int)),
        decreases v.len() - k,
    {
        proof {
            assert(v@.take(k + 1) == v@.take(k as int).push(v@[k as int]));
            v@.take(k as int).lemma_push_map_commute(|i: u32| NodeIndex(i), v@[k as int]);
        }
        r.push(NodeIndex(v[k]));
        k += 1;
    }
    assert(v@.take(v@.len() as int) == v@);
    r
}

impl Graph {
    /// The output declarations that no edge leaves, in increasing handle
    /// order. An output that feeds another node is not among them.
    pub fn outputs(&self) -> (r: Vec<NodeIndex>)
        requires
            self.wf(),
        ensures
            r@ == handles(output_sinks(self@)),
    {
        let found = store_sinks(&self.store);
        let ghost pred = output_at(self@);
        let mut r: Vec<NodeIndex> = Vec::new();
        let mut k: usize = 0;
        while k < found.len()
            invariant
                k <= found@.len(),
                found@ == sinks(self@.edges, self@.nodes.len()),
                pred == output_at(self@),
                r@ == handles(found@.take(k as int).filter(pred)),
            decreases found.len() - k,
        {
            let i = found[k];
            let ghost before = found@.take(k as int);
            proof {
                assert(found@.take(k + 1) == before.push(i));
                before.lemma_filter_push(i, pred);
            }
            match store_node_weight(&self.store, i) {
                Some(n) => {
                    if n.is_output() {
                        proof {
                            before.filter(pred).lemma_push_map_commute(|i: u32| NodeIndex(i), i);
                        }
                        r.push(NodeIndex(i));
                    }
                },
                None => {},
            }
            k += 1;
        }
        assert(found@.take(found@.len() as int) == found@);
        r
    }

    /// The sources of the edges into `index`, ordered by the argument slot
    /// their edges fill. Sources of edges with equal slots come in an
    /// unspecified order. A handle that names no node has no arguments.
    pub fn arguments(&self, index: NodeIndex) -> (r: Vec<NodeIndex>)
        requires
            self.wf(),
        ensures
            exists|s: Seq<(u32, u32)>|
                argument_order(self@.edges, index.0, s) && r@ == #[trigger] source_handles(s),
    {
        let mut work = store_incoming(&self.store, index.0);
        proof {
            if index.0 >= self@.nodes.len() {
                lemma_absent_isolated(self@.edges, self@.nodes.len(), index.0);
            }
        }
        let ghost all = work@;
        let ghost mut s: Seq<(u32, u32)> = seq![];
        let mut r: Vec<NodeIndex> = Vec::new();
        assert(all == incoming(self@.edges, index.0));
        assert(s.to_multiset().add(work@.to_multiset()) =~= all.to_multiset()) by {
            broadcast use vstd::seq_lib::group_to_multiset_ensures;
        }
        while work.len() > 0
            invariant
                all == incoming(self@.edges, index.0),
                s.to_multiset().add(work@.to_multiset()) == all.to_multiset(),
                sorted_by_slot(s),
                forall|i: int, j: int|
                    0 <= i < s.len() && 0 <= j < work@.len() ==> (#[trigger] s[i]).1 <= (
                    #[trigger] work@[j]).1,
                r@ == source_handles(s),
            decreases work.len(),
        {
            let mut m: usize = 0;
            let mut j: usize = 1;
            while j < work.len()
                invariant
                    m < work@.len(),
                    1 <= j <= work@.len(),
                    forall|t: int| 0 <= t < j ==> work@[m as int].1 <= (#[trigger] work@[t]).1,
                decreases work.len() - j,
            {
                if work[j].1 < work[m].1 {
                    m = j;
                }
                j += 1;
            }
            let ghost old_work = work@;
            let x = work.remove(m);
            proof {
                broadcast use vstd::seq_lib::group_to_multiset_ensures;

                assert(old_work.to_multiset().count(x) > 0);
                assert(s.push(x).to_multiset().add(work@.to_multiset()) =~= all.to_multiset());
                assert forall|i: int, j: int|
                    0 <= i < s.push(x).len() && 0 <= j < work@.len() implies (
                    #[trigger] s.push(x)[i]).1 <= (#[trigger] work@[j]).1 by {
                    if j < m {
                        assert(work@[j] == old_work[j]);
                    } else {
                        assert(work@[j] == old_work[j + 1]);
                    }
                    if i < s.len() {
                        assert(s.push(x)[i] == s[i]);
                    }
                }
                assert(sorted_by_slot(s.push(x))) by {
                    assert forall|i: int, j: int| 0 <= i <= j < s.push(x).len() implies (
                    #[trigger] s.push(x)[i]).1 <= (#[trigger] s.push(x)[j]).1 by {
                        if j < s.len() {
                            assert(s.push(x)[i] == s[i]);
                            assert(s.push(x)[j] == s[j]);
                        } else if i < s.len() {
                            assert(s.push(x)[i] == s[i]);
                            assert(s[i].1 <= old_work[m as int].1);
                        }
                    }
                }
                s.lemma_push_map_commute(|e: (u32, u32)| e.0, x);
                s.map_values(|e: (u32, u32)| e.0).lemma_push_map_commute(|i: u32| NodeIndex(i), x.0);
                s = s.push(x);
            }
            r.push(NodeIndex(x.0));
        }
        proof {
            broadcast use vstd::seq_lib::group_to_multiset_ensures;

            assert(work@.to_multiset() =~= vstd::multiset::Multiset::empty());
            assert(s.to_multiset() =~= all.to_multiset());
            assert(argument_order(self@.edges, index.0, s));
        }
        r
    }

    /// The nodes joined to `index` by an edge in direction `dir` (incoming
    /// when `None`), the most recently added edge first. A handle that names
    /// no node has no neighbors.
    pub fn neighbors(&self, index: NodeIndex, dir: Option<Direction>) -> (r: Vec<NodeIndex>)
        requires
            self.wf(),
        ensures
            r@ == handles(adjacent(self@.edges, index.0, dir.unwrap_or(Direction::Incoming))),
    {
        let dir = match dir {
            Some(d) => d,
            None => Direction::Incoming,
        };
        let found = store_neighbors(&self.store, index.0, dir);
        proof {
            if index.0 >= self@.nodes.len() {
                lemma_absent_isolated(self@.edges, self@.nodes.len(), index.0);
            }
        }
        to_handles(found)
    }
}

impl Graph {
    /// The nodes and edges of this graph as plain values.
    pub fn to_data(&self) -> (r: GraphData)
        requires
            self.wf(),
        ensures
            r.nodes@ == self@.nodes,
            r.edges@ == self@.edges,
    {
        let n = store_node_count(&self.store);
        let mut nodes: Vec<Node> = Vec::new();
        let mut k: usize = 0;
        while k < n
            invariant
                n == self@.nodes.len(),
                n <= u32::MAX,
                k <= n,
                nodes@ == self@.nodes.take(k as int),
            decreases n - k,
        {
            match store_node_weight(&self.store, k as u32) {
                Some(node) => {
                    nodes.push(node.clone());
                },
                None => {},
            }
            assert(self@.nodes.take(k + 1) == self@.nodes.take(k as int).push(self@.nodes[k as int]));
            k += 1;
        }
        assert(self@.nodes.take(n as int) == self@.nodes);
        GraphData { nodes, edges: store_raw_edges(&self.store) }
    }

    /// Rebuilds a graph from plain values: the nodes get handles by position
    /// and the edges are added in order. Fails with `InvalidHandle` when an
    /// edge names a position past the last node.
    pub fn from_data(data: &GraphData) -> (r: Result<Graph, GraphError>)
        requires
            data.nodes@.len() <= u32::MAX,
            data.edges@.len() <= u32::MAX,
        ensures
            r is Ok <==> within(data.edges@, data.nodes@.len()),
            r matches Ok(g) ==> g.wf() && g@.nodes == data.nodes@ && g@.edges == data.edges@,
            r matches Err(e) ==> e == GraphError::InvalidHandle,
    {
        let n = data.nodes.len();
        let mut k: usize = 0;
        while k < data.edges.len()
            invariant
                n == data.nodes@.len(),
                k <= data.edges@.len(),
                within(data.edges@.take(k as int), n as nat),
            decreases data.edges.len() - k,
        {
            let e = data.edges[k];
            if e.0 as usize >= n || e.1 as usize >= n {
                assert(!within(data.edges@, n as nat)) by {
                    assert(data.edges@[k as int] == e);
                }
                return Err(GraphError::InvalidHandle);
            }
            assert forall|t: int| 0 <= t < k + 1 implies (#[trigger] data.edges@.take(k + 1)[t]).0
                < n && data.edges@.take(k + 1)[t].1 < n by {
                if t < k {
                    assert(data.edges@.take(k + 1)[t] == data.edges@.take(k as int)[t]);
                }
            }
            k += 1;
        }
        assert(data.edges@.take(data.edges@.len() as int) == data.edges@);
        let mut g = Graph::new();
        let mut k: usize = 0;
        while k < n
            invariant
                n == data.nodes@.len(),
                n <= u32::MAX,
                k <= n,
                g.wf(),
                g@.nodes == data.nodes@.take(k as int),
                g@.edges.len() == 0,
            decreases n - k,
        {
            g.add_node(data.nodes[k].clone());
            assert(data.nodes@.take(k + 1) == data.nodes@.take(k as int).push(data.nodes@[k as int]));
            k += 1;
        }
        assert(data.nodes@.take(n as int) == data.nodes@);
        let mut k: usize = 0;
        while k < data.edges.len()
            invariant
                n == data.nodes@.len(),
                within(data.edges@, n as nat),
                data.edges@.len() <= u32::MAX,
                k <= data.edges@.len(),
                g.wf(),
                g@.nodes == data.nodes@,
                g@.edges == data.edges@.take(k as int),
            decreases data.edges.len() - k,
        {
            let e = data.edges[k];
            assert(data.edges@[k as int] == e);
            g.add_edge(NodeIndex(e.0), NodeIndex(e.1), e.2);
            assert(data.edges@.take(k + 1) == data.edges@.take(k as int).push(e));
            k += 1;
        }
        assert(data.edges@.take(data.edges@.len() as int) == data.edges@);
        Ok(g)
    }
}

impl Clone for Graph {
    fn clone(&self) -> (r: Self)
        ensures
            r@ == self@,
    {
        Graph { store: store_clone(&self.store) }
    }
}

impl Default for Graph {
    fn default() -> (r: Graph)
        ensures
            r.wf(),
            r@.nodes.len() == 0,
            r@.edges.len() == 0,
    {
        Graph::new()
    }
}

} // verus!
