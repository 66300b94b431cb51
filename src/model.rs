//! Mathematical model of a shader graph: a sequence of nodes, addressed by
//! position, and a sequence of edges `(source, target, slot)` in the order
//! they were added.

use vstd::prelude::*;
use crate::types::Node;

verus! {

/// An edge as `(source, target, slot)`.
pub type EdgeModel = (u32, u32, u32);

/// The model of a graph.
pub struct GraphModel {
    pub nodes: Seq<Node>,
    pub edges: Seq<EdgeModel>,
}

impl GraphModel {
    /// Well-formed: node and edge counts fit in a `u32` and every edge joins
    /// two nodes of the graph.
    pub open spec fn wf(self) -> bool {
        &&& self.nodes.len() <= u32::MAX
        &&& self.edges.len() <= u32::MAX
        &&& within(self.edges, self.nodes.len())
    }
}

/// Whether some edge leaves node `a`.
pub open spec fn has_out_edge(edges: Seq<EdgeModel>, a: u32) -> bool {
    exists|k: int| 0 <= k < edges.len() && (#[trigger] edges[k]).0 == a
}

/// The nodes among the first `n` that no edge leaves, in increasing order.
pub open spec fn sinks(edges: Seq<EdgeModel>, n: nat) -> Seq<u32>
    decreases n,
{
    if n == 0 {
        seq![]
    } else {
        let rest = sinks(edges, (n - 1) as nat);
        if has_out_edge(edges, (n - 1) as u32) {
            rest
        } else {
            rest.push((n - 1) as u32)
        }
    }
}

/// The edges into node `a` as `(source, slot)`, the most recently added first.
pub open spec fn incoming(edges: Seq<EdgeModel>, a: u32) -> Seq<(u32, u32)>
    decreases edges.len(),
{
    if edges.len() == 0 {
        seq![]
    } else {
        let e = edges.last();
        let rest = incoming(edges.drop_last(), a);
        if e.1 == a {
            seq![(e.0, e.2)] + rest
        } else {
            rest
        }
    }
}

/// The nodes that edges out of `a` lead to, the most recently added edge first.
pub open spec fn successors(edges: Seq<EdgeModel>, a: u32) -> Seq<u32>
    decreases edges.len(),
{
    if edges.len() == 0 {
        seq![]
    } else {
        let e = edges.last();
        let rest = successors(edges.drop_last(), a);
        if e.0 == a {
            seq![e.1] + rest
        } else {
            rest
        }
    }
}

/// The nodes that edges into `a` come from, the most recently added edge first.
pub open spec fn predecessors(edges: Seq<EdgeModel>, a: u32) -> Seq<u32>
    decreases edges.len(),
{
    if edges.len() == 0 {
        seq![]
    } else {
        let e = edges.last();
        let rest = predecessors(edges.drop_last(), a);
        if e.1 == a {
            seq![e.0] + rest
        } else {
            rest
        }
    }
}

/// Whether a position holds a node that declares an output.
pub open spec fn output_at(m: GraphModel) -> spec_fn(u32) -> bool {
    |i: u32| i < m.nodes.len() && m.nodes[i as int] is Output
}

/// The nodes that declare an output and that no edge leaves, in increasing
/// order.
pub open spec fn output_sinks(m: GraphModel) -> Seq<u32> {
    sinks(m.edges, m.nodes.len()).filter(output_at(m))
}

/// The slots never decrease along `s`, a sequence of `(source, slot)`.
pub open spec fn sorted_by_slot(s: Seq<(u32, u32)>) -> bool {
    forall|i: int, j: int| 0 <= i <= j < s.len() ==> (#[trigger] s[i]).1 <= (#[trigger] s[j]).1
}

/// `s` holds the edges into `a`, as `(source, slot)`, ordered by slot.
/// Edges of equal slot may come in any order.
pub open spec fn argument_order(edges: Seq<EdgeModel>, a: u32, s: Seq<(u32, u32)>) -> bool {
    sorted_by_slot(s) && s.to_multiset() == incoming(edges, a).to_multiset()
}

/// No edge reaches beyond the first `n` nodes.
pub open spec fn within(edges: Seq<EdgeModel>, n: nat) -> bool {
    forall|k: int| 0 <= k < edges.len() ==> (#[trigger] edges[k]).0 < n && edges[k].1 < n
}

/// A node past all edge endpoints has no incident edges.
pub proof fn lemma_absent_isolated(edges: Seq<EdgeModel>, n: nat, a: u32)
    requires
        within(edges, n),
        a >= n,
    ensures
        incoming(edges, a) == Seq::<(u32, u32)>::empty(),
        successors(edges, a) == Seq::<u32>::empty(),
        predecessors(edges, a) == Seq::<u32>::empty(),
    decreases edges.len(),
{
    if edges.len() > 0 {
        let rest = edges.drop_last();
        assert(within(rest, n)) by {
            assert forall|k: int| 0 <= k < rest.len() implies (#[trigger] rest[k]).0 < n
                && rest[k].1 < n by {
                assert(rest[k] == edges[k]);
            }
        }
        assert(edges.last() == edges[edges.len() - 1]);
        lemma_absent_isolated(rest, n, a);
    }
}

/// Some edge leads from `a` to `b`.
pub open spec fn linked(edges: Seq<EdgeModel>, a: u32, b: u32) -> bool {
    exists|k: int| 0 <= k < edges.len() && (#[trigger] edges[k]).0 == a && edges[k].1 == b
}

/// `p` is a walk of at least one edge.
pub open spec fn is_walk(edges: Seq<EdgeModel>, p: Seq<u32>) -> bool {
    &&& p.len() >= 2
    &&& forall|i: int| 0 <= i < p.len() - 1 ==> linked(edges, #[trigger] p[i], p[i + 1])
}

/// The edges hold a directed cycle: a walk of at least one edge that ends
/// where it starts.
pub open spec fn has_cycle(edges: Seq<EdgeModel>) -> bool {
    exists|p: Seq<u32>| is_walk(edges, p) && p[0] == p[p.len() - 1]
}

} // verus!
