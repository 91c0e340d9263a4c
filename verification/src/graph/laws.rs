//! What holds of every adjacency list, proved over [`GraphView`].
//!
//! Each lemma speaks of the functions that the contracts of
//! [`Graph`](super::adjacency_list::Graph) are written in, so a caller who
//! knows those contracts can apply a lemma to the graph at hand.

use super::adjacency_list::{
    arc_added, edge_added, node_added, targets_registered, Edge, GraphView, NodeView,
};
use super::EdgeType;
use std::hash::Hash;
use vstd::prelude::*;

verus! {

/// From `before` to `after` no key was lost, no value changed and every
/// node kept the edges it had, in their order and ahead of any new ones.
pub open spec fn only_grown<K: Hash + Eq, V, E: Copy>(
    before: GraphView<K, V, E>,
    after: GraphView<K, V, E>,
) -> bool {
    forall|key: K| #[trigger]
        before.contains_key(key) ==> {
            &&& after.contains_key(key)
            &&& after[key].value == before[key].value
            &&& before[key].edges.is_prefix_of(after[key].edges)
        }
}

/// Registering a key in the empty graph yields a graph that holds exactly
/// that key, with the given value and no edges.
pub proof fn lemma_first_node<K: Hash + Eq, V, E: Copy>(key: K, value: V)
    ensures
        ({
            let g = node_added(GraphView::<K, V, E>::empty(), key, value);
            &&& g.dom() == set![key]
            &&& g[key].value == value
            &&& g[key].edges == Seq::<Edge<K, E>>::empty()
        }),
{
}

/// Registering a key yields a node with the given value and no edges,
/// whatever the key held before, and leaves every other key as it was.
pub proof fn lemma_node_added<K: Hash + Eq, V, E: Copy>(g: GraphView<K, V, E>, key: K, value: V)
    ensures
        node_added(g, key, value).contains_key(key),
        node_added(g, key, value)[key] == NodeView::<K, V, E>::fresh(value),
        node_added(g, key, value).dom() == g.dom().insert(key),
        forall|other: K|
            other != key && g.contains_key(other) ==> #[trigger] node_added(g, key, value)[other]
                == g[other],
{
}

/// Registering a key twice is registering it once with the later value:
/// the node holds the later value and has no edges.
pub proof fn lemma_node_overwritten<K: Hash + Eq, V, E: Copy>(
    g: GraphView<K, V, E>,
    key: K,
    earlier: V,
    later: V,
)
    ensures
        node_added(node_added(g, key, earlier), key, later) == node_added(g, key, later),
        node_added(node_added(g, key, earlier), key, later)[key] == NodeView::<K, V, E>::fresh(
            later,
        ),
{
}

/// Registering a key again drops the edges that its node had gained since
/// it was first registered: the node holds the later value and no edges,
/// and every other node keeps the edges that it has, those that point to
/// `key` among them.
pub proof fn lemma_node_overwritten_after_edge<K: Hash + Eq, V, E: Copy>(
    g: GraphView<K, V, E>,
    key: K,
    earlier: V,
    to: K,
    weight: E,
    edge_type: EdgeType,
    later: V,
)
    ensures
        ({
            let linked = edge_added(node_added(g, key, earlier), key, to, weight, edge_type);
            let again = node_added(linked, key, later);
            &&& again[key].value == later
            &&& again[key].edges == Seq::<Edge<K, E>>::empty()
            &&& forall|other: K|
                other != key && linked.contains_key(other) ==> #[trigger] again[other]
                    == linked[other]
        }),
{
}

/// A directional edge between two registered keys appends exactly one edge,
/// at its source. Every other node is unchanged, and so is the target
/// unless it is the source itself.
pub proof fn lemma_directional_edge<K: Hash + Eq, V, E: Copy>(
    g: GraphView<K, V, E>,
    a: K,
    b: K,
    weight: E,
)
    requires
        g.contains_key(a),
        g.contains_key(b),
    ensures
        ({
            let h = edge_added(g, a, b, weight, EdgeType::Directional);
            &&& h.dom() == g.dom()
            &&& h[a].value == g[a].value
            &&& h[a].edges == g[a].edges.push(Edge { weight, target: b })
            &&& a != b ==> h[b] == g[b]
            &&& forall|other: K| other != a && g.contains_key(other) ==> #[trigger] h[other] == g[other]
        }),
{
}

/// A bidirectional edge between two distinct registered keys appends one
/// edge at each end, each pointing to the other end, both of the given
/// weight. Every other node is unchanged.
pub proof fn lemma_bidirectional_edge<K: Hash + Eq, V, E: Copy>(
    g: GraphView<K, V, E>,
    a: K,
    b: K,
    weight: E,
)
    requires
        g.contains_key(a),
        g.contains_key(b),
        a != b,
    ensures
        ({
            let h = edge_added(g, a, b, weight, EdgeType::Bidirectional);
            &&& h.dom() == g.dom()
            &&& h[a].value == g[a].value
            &&& h[b].value == g[b].value
            &&& h[a].edges == g[a].edges.push(Edge { weight, target: b })
            &&& h[b].edges == g[b].edges.push(Edge { weight, target: a })
            &&& forall|other: K|
                other != a && other != b && g.contains_key(other) ==> #[trigger] h[other]
                    == g[other]
        }),
{
}

/// A bidirectional edge from a registered key to itself appends the same
/// edge twice to that node, and leaves every other node unchanged.
pub proof fn lemma_bidirectional_loop<K: Hash + Eq, V, E: Copy>(
    g: GraphView<K, V, E>,
    a: K,
    weight: E,
)
    requires
        g.contains_key(a),
    ensures
        ({
            let h = edge_added(g, a, a, weight, EdgeType::Bidirectional);
            let edge = Edge { weight, target: a };
            &&& h.dom() == g.dom()
            &&& h[a].value == g[a].value
            &&& h[a].edges == g[a].edges.push(edge).push(edge)
            &&& forall|other: K| other != a && g.contains_key(other) ==> #[trigger] h[other] == g[other]
        }),
{
}

/// A bidirectional edge is a directional edge followed by the directional
/// edge that runs the other way.
pub proof fn lemma_bidirectional_is_two_directional<K: Hash + Eq, V, E: Copy>(
    g: GraphView<K, V, E>,
    a: K,
    b: K,
    weight: E,
)
    ensures
        edge_added(g, a, b, weight, EdgeType::Bidirectional) == edge_added(
            edge_added(g, a, b, weight, EdgeType::Directional),
            b,
            a,
            weight,
            EdgeType::Directional,
        ),
{
}

/// An edge requested at a key that is not registered changes nothing,
/// whichever end is missing and whatever the type of the edge.
pub proof fn lemma_missing_endpoint<K: Hash + Eq, V, E: Copy>(
    g: GraphView<K, V, E>,
    a: K,
    b: K,
    weight: E,
    edge_type: EdgeType,
)
    requires
        !g.contains_key(a) || !g.contains_key(b),
    ensures
        edge_added(g, a, b, weight, edge_type) == g,
{
}

/// Edges are kept in the order in which they were added: after two
/// directional edges leave a node, its edges are the ones it had, then the
/// first new edge, then the second.
pub proof fn lemma_edges_in_insertion_order<K: Hash + Eq, V, E: Copy>(
    g: GraphView<K, V, E>,
    from: K,
    first: Edge<K, E>,
    second: Edge<K, E>,
)
    requires
        g.contains_key(from),
        g.contains_key(first.target),
        g.contains_key(second.target),
    ensures
        ({
            let once = edge_added(g, from, first.target, first.weight, EdgeType::Directional);
            let twice = edge_added(once, from, second.target, second.weight, EdgeType::Directional);
            &&& twice[from].edges == g[from].edges.push(first).push(second)
            &&& g[from].edges.len() == 0 ==> twice[from].edges == seq![first, second]
        }),
{
}

/// Requesting an edge never removes a key, changes a value or disturbs an
/// edge that is already there: each node's edges only grow at the end.
pub proof fn lemma_edge_added_only_grows<K: Hash + Eq, V, E: Copy>(
    g: GraphView<K, V, E>,
    a: K,
    b: K,
    weight: E,
    edge_type: EdgeType,
)
    ensures
        only_grown(g, edge_added(g, a, b, weight, edge_type)),
        edge_added(g, a, b, weight, edge_type).dom() == g.dom(),
{
}

/// If every edge points to a registered key, this is still so after a key
/// is registered, though the node it replaces may have been a target.
pub proof fn lemma_node_added_keeps_targets<K: Hash + Eq, V, E: Copy>(
    g: GraphView<K, V, E>,
    key: K,
    value: V,
)
    requires
        targets_registered(g),
    ensures
        targets_registered(node_added(g, key, value)),
{
}

/// If every edge points to a registered key, this is still so after an edge
/// is requested: an edge is only ever created between registered keys.
pub proof fn lemma_edge_added_keeps_targets<K: Hash + Eq, V, E: Copy>(
    g: GraphView<K, V, E>,
    a: K,
    b: K,
    weight: E,
    edge_type: EdgeType,
)
    requires
        targets_registered(g),
    ensures
        targets_registered(edge_added(g, a, b, weight, edge_type)),
{
    if g.contains_key(a) && g.contains_key(b) {
        lemma_arc_added_keeps_targets(g, a, b, weight);
        if edge_type == EdgeType::Bidirectional {
            lemma_arc_added_keeps_targets(arc_added(g, a, b, weight), b, a, weight);
        }
    }
}

proof fn lemma_arc_added_keeps_targets<K: Hash + Eq, V, E: Copy>(
    g: GraphView<K, V, E>,
    from: K,
    to: K,
    weight: E,
)
    requires
        targets_registered(g),
        g.contains_key(from),
        g.contains_key(to),
    ensures
        targets_registered(arc_added(g, from, to, weight)),
        arc_added(g, from, to, weight).dom() == g.dom(),
{
}

/// The empty graph has no edge, so none of its edges points to a key that
/// is not registered.
pub proof fn lemma_empty_keeps_targets<K: Hash + Eq, V, E: Copy>()
    ensures
        targets_registered(GraphView::<K, V, E>::empty()),
{
}

} // verus!
