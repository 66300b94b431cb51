//! Laws that relate the operations of a graph.

use vstd::prelude::*;
use crate::graph::{Graph, GraphData};
use crate::model::{
    GraphModel, EdgeModel, has_cycle, is_walk, linked, has_out_edge, sinks, output_at, output_sinks,
    within,
};
use crate::types::Node;

verus! {

/// A graph to which no edge was ever added has no cycle.
pub proof fn lemma_no_edges_no_cycle(g: Graph)
    requires
        g@.edges.len() == 0,
    ensures
        !has_cycle(g@.edges),
{
    if has_cycle(g@.edges) {
        let p = choose|p: Seq<u32>| is_walk(g@.edges, p) && p[0] == p[p.len() - 1];
        assert(linked(g@.edges, p[0], p[1]));
    }
}

/// A walk of at least one edge that returns to its start is a cycle.
pub proof fn lemma_closed_walk_is_cycle(edges: Seq<EdgeModel>, p: Seq<u32>)
    requires
        is_walk(edges, p),
        p[0] == p[p.len() - 1],
    ensures
        has_cycle(edges),
{
}

/// Adding an edge never removes a cycle.
pub proof fn lemma_cycle_persists(edges: Seq<EdgeModel>, e: EdgeModel)
    requires
        has_cycle(edges),
    ensures
        has_cycle(edges.push(e)),
{
    let p = choose|p: Seq<u32>| is_walk(edges, p) && p[0] == p[p.len() - 1];
    lemma_walk_extends(edges, e, p);
}

/// An edge from `a` to `b` closes a cycle when a walk already leads from `b`
/// to `a`, or when `a` and `b` are the same node.
pub proof fn lemma_back_edge_closes_cycle(edges: Seq<EdgeModel>, p: Seq<u32>, a: u32, b: u32, slot: u32)
    requires
        a == b || (is_walk(edges, p) && p[0] == b && p[p.len() - 1] == a),
    ensures
        has_cycle(edges.push((a, b, slot))),
{
    let all = edges.push((a, b, slot));
    assert(all[edges.len() as int] == (a, b, slot));
    assert(linked(all, a, b));
    if a == b {
        let q = seq![a, a];
        assert(is_walk(all, q));
    } else {
        lemma_walk_extends(edges, (a, b, slot), p);
        let q = p.push(b);
        assert forall|i: int| 0 <= i < q.len() - 1 implies linked(all, #[trigger] q[i], q[i + 1]) by {
            if i < p.len() - 1 {
                assert(q[i] == p[i] && q[i + 1] == p[i + 1]);
            } else {
                assert(q[i] == a && q[i + 1] == b);
            }
        }
        assert(is_walk(all, q));
    }
}

/// A walk stays a walk when an edge is added.
proof fn lemma_walk_extends(edges: Seq<EdgeModel>, e: EdgeModel, p: Seq<u32>)
    requires
        is_walk(edges, p),
    ensures
        is_walk(edges.push(e), p),
{
    let all = edges.push(e);
    assert forall|i: int| 0 <= i < p.len() - 1 implies linked(all, #[trigger] p[i], p[i + 1]) by {
        assert(linked(edges, p[i], p[i + 1]));
        let k = choose|k: int| 0 <= k < edges.len() && (#[trigger] edges[k]).0 == p[i] && edges[k].1 == p[i + 1];
        assert(all[k] == edges[k]);
    }
}

/// A node is among the first `n` sinks exactly when it is one of the first
/// `n` nodes and no edge leaves it.
proof fn lemma_sinks_contains(edges: Seq<EdgeModel>, n: nat, i: u32)
    requires
        n <= u32::MAX,
    ensures
        sinks(edges, n).contains(i) <==> (i < n && !has_out_edge(edges, i)),
    decreases n,
{
    if n > 0 {
        let m = (n - 1) as nat;
        lemma_sinks_contains(edges, m, i);
        let rest = sinks(edges, m);
        if !has_out_edge(edges, m as u32) {
            assert(rest.push(m as u32)[rest.len() as int] == m as u32);
            if rest.push(m as u32).contains(i) && i != m {
                let j = choose|j: int| 0 <= j < rest.len() + 1 && #[trigger] rest.push(m as u32)[j] == i;
                assert(rest[j] == i);
            }
            if rest.contains(i) {
                let j = choose|j: int| 0 <= j < rest.len() && #[trigger] rest[j] == i;
                assert(rest.push(m as u32)[j] == i);
            }
        }
    }
}

/// A node is among the outputs of a graph exactly when it declares an
/// output and no edge leaves it.
pub proof fn lemma_outputs_exact(g: GraphModel, i: u32)
    requires
        g.wf(),
    ensures
        output_sinks(g).contains(i) <==> (i < g.nodes.len() && g.nodes[i as int] is Output
            && !has_out_edge(g.edges, i)),
{
    let all = sinks(g.edges, g.nodes.len());
    let pred = output_at(g);
    lemma_sinks_contains(g.edges, g.nodes.len(), i);
    if output_sinks(g).contains(i) {
        all.lemma_filter_contains_rev(pred, i);
        let j = choose|j: int| 0 <= j < all.filter(pred).len() && #[trigger] all.filter(pred)[j] == i;
        all.lemma_filter_pred(pred, j);
    }
    if i < g.nodes.len() && g.nodes[i as int] is Output && !has_out_edge(g.edges, i) {
        let j = choose|j: int| 0 <= j < all.len() && #[trigger] all[j] == i;
        all.lemma_filter_contains(pred, j);
    }
}

/// Once an edge leaves a node, that node is no longer among the outputs.
pub proof fn lemma_fed_output_leaves(g1: GraphModel, g2: GraphModel, from: u32, to: u32, slot: u32)
    requires
        g2.wf(),
        g2.nodes == g1.nodes,
        g2.edges == g1.edges.push((from, to, slot)),
    ensures
        !output_sinks(g2).contains(from),
{
    assert(g2.edges[g1.edges.len() as int].0 == from);
    assert(has_out_edge(g2.edges, from));
    lemma_outputs_exact(g2, from);
}

/// The handle that adding a node returns looks up that node, and every
/// handle issued before still looks up the node it did.
pub proof fn lemma_lookup_after_add_node(g1: GraphModel, g2: GraphModel, node: Node, h: u32)
    requires
        g2.nodes == g1.nodes.push(node),
        h == g1.nodes.len(),
    ensures
        h < g2.nodes.len(),
        g2.nodes[h as int] == node,
        forall|k: int| 0 <= k < g1.nodes.len() ==> #[trigger] g2.nodes[k] == g1.nodes[k],
{
}

/// Storing a graph as plain values and rebuilding it gives back the same
/// nodes and edges: the plain values are accepted and describe the graph.
pub proof fn lemma_round_trip(g: Graph, data: GraphData)
    requires
        g.wf(),
        data.nodes@ == g@.nodes,
        data.edges@ == g@.edges,
    ensures
        data.nodes@.len() <= u32::MAX,
        data.edges@.len() <= u32::MAX,
        within(data.edges@, data.nodes@.len()),
        (GraphModel { nodes: data.nodes@, edges: data.edges@ }) == g@,
{
}

} // verus!
