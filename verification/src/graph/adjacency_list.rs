//! A key-addressed adjacency list.
//!
//! The graph maps keys to nodes. Each node carries a value and the list of
//! its outgoing edges in the order in which they were added, and each edge
//! names its target by key. An edge never holds a reference to its target:
//! whoever walks the graph resolves the key through [`Graph::get`] again, so
//! replacing a node can leave no dangling adjacency behind.
//!
//! Contracts are stated over [`GraphView`], a map from keys to [`NodeView`]s.

use super::laws::{lemma_edge_added_keeps_targets, lemma_node_added_keeps_targets};
use super::EdgeType;
use std::collections::hash_map::Entry;
use std::collections::HashMap;
use std::hash::Hash;
use vstd::prelude::*;
use vstd::std_specs::hash::obeys_key_model;

verus! {

broadcast use vstd::std_specs::hash::group_hash_axioms;

/// An edge pointing to a node by its key.
///
/// Edges also contain a weight, which is of some type `E`. This allows for
/// representing weighted graphs or other kinds of data structures.
#[derive(Debug, PartialEq, Eq)]
pub struct Edge<K: Hash + Eq, E: Copy> {
    /// The value that the edge carries.
    pub weight: E,
    /// The key of the node that the edge points to.
    pub target: K,
}

/// A node containing some value and adjacent nodes.
#[derive(Debug)]
pub struct Node<K: Hash + Eq, V, E: Copy> {
    value: V,
    adjacencies: Vec<Edge<K, E>>,
}

/// A standard adjacency list implementation of a graph.
///
/// Here the graph is implemented as a map from keys to nodes, and each node
/// has a vector of edges. Edges contain the key of the node to which they
/// point, in addition to their weight.
#[verifier::reject_recursive_types(K)]
#[derive(Debug)]
pub struct Graph<K: Hash + Eq, V, E: Copy> {
    nodes: HashMap<K, Node<K, V, E>>,
}

/// What a node holds: its value and its outgoing edges, oldest first.
pub struct NodeView<K: Hash + Eq, V, E: Copy> {
    /// The value that the node was registered with.
    pub value: V,
    /// The edges that leave the node, in the order in which they were added.
    pub edges: Seq<Edge<K, E>>,
}

/// What a graph holds: the node registered under each key.
pub type GraphView<K, V, E> = Map<K, NodeView<K, V, E>>;

impl<K: Hash + Eq, V, E: Copy> NodeView<K, V, E> {
    /// A node that holds `value` and has no edges.
    pub open spec fn fresh(value: V) -> Self {
        NodeView { value, edges: Seq::empty() }
    }

    /// This node with one more edge after the ones it has.
    pub open spec fn extended(self, weight: E, target: K) -> Self {
        NodeView { value: self.value, edges: self.edges.push(Edge { weight, target }) }
    }

    /// The keys that the edges point to, in the order of the edges.
    pub open spec fn targets(self) -> Seq<K> {
        self.edges.map_values(|edge: Edge<K, E>| edge.target)
    }
}

/// The graph `g` after `key` is registered with `value`: whatever `key` held
/// before, it now holds a fresh node.
pub open spec fn node_added<K: Hash + Eq, V, E: Copy>(
    g: GraphView<K, V, E>,
    key: K,
    value: V,
) -> GraphView<K, V, E> {
    g.insert(key, NodeView::fresh(value))
}

/// The graph `g` after the node at `from` gains one edge to `to`.
pub open spec fn arc_added<K: Hash + Eq, V, E: Copy>(
    g: GraphView<K, V, E>,
    from: K,
    to: K,
    weight: E,
) -> GraphView<K, V, E>
    recommends
        g.contains_key(from),
{
    g.insert(from, g[from].extended(weight, to))
}

/// The graph `g` after an edge of the given type is requested between `a`
/// and `b`. Unless both keys are registered nothing changes. Otherwise `a`
/// gains an edge to `b`, and for a bidirectional edge `b` then gains an edge
/// of the same weight to `a`.
pub open spec fn edge_added<K: Hash + Eq, V, E: Copy>(
    g: GraphView<K, V, E>,
    a: K,
    b: K,
    weight: E,
    edge_type: EdgeType,
) -> GraphView<K, V, E> {
    if g.contains_key(a) && g.contains_key(b) {
        match edge_type {
            EdgeType::Directional => arc_added(g, a, b, weight),
            EdgeType::Bidirectional => arc_added(arc_added(g, a, b, weight), b, a, weight),
        }
    } else {
        g
    }
}

/// Every edge of `g` points to a key that `g` holds.
pub open spec fn targets_registered<K: Hash + Eq, V, E: Copy>(g: GraphView<K, V, E>) -> bool {
    forall|key: K, i: int|
        g.contains_key(key) && 0 <= i < g[key].edges.len() ==> g.contains_key(
            #[trigger] g[key].edges[i].target,
        )
}

impl<K: Hash + Eq, V, E: Copy> View for Node<K, V, E> {
    type V = NodeView<K, V, E>;

    closed spec fn view(&self) -> NodeView<K, V, E> {
        NodeView { value: self.value, edges: self.adjacencies@ }
    }
}

/// What a map from keys to nodes holds, node by node.
spec fn view_of<K: Hash + Eq, V, E: Copy>(nodes: Map<K, Node<K, V, E>>) -> GraphView<K, V, E> {
    nodes.map_values(|node: Node<K, V, E>| node@)
}

impl<K: Hash + Eq, V, E: Copy> View for Graph<K, V, E> {
    type V = GraphView<K, V, E>;

    closed spec fn view(&self) -> GraphView<K, V, E> {
        view_of(self.nodes@)
    }
}

impl<K: Hash + Eq, E: Copy> Edge<K, E> {
    /// Create a new edge to the node registered under `target`.
    pub fn new(weight: E, target: K) -> (edge: Self)
        ensures
            edge == (Edge { weight, target }),
    {
        Edge { weight, target }
    }
}

impl<K: Hash + Eq, V, E: Copy> Node<K, V, E> {
    /// Create a new node, with no adjacencies.
    fn new(value: V) -> (node: Self)
        ensures
            node@ == NodeView::<K, V, E>::fresh(value),
    {
        Node { value, adjacencies: Vec::new() }
    }

    /// Adds an edge to this node's adjacencies.
    fn add_adjacency(&mut self, adjacency: Edge<K, E>)
        ensures
            final(self)@ == old(self)@.extended(adjacency.weight, adjacency.target),
    {
        self.adjacencies.push(adjacency);
    }

    /// Returns a reference to the value of this node.
    pub fn value(&self) -> (value: &V)
        ensures
            *value == self@.value,
    {
        &self.value
    }

    /// Returns a reference to the list of adjacencies edges for this node,
    /// in the order in which the edges were added.
    pub fn edges(&self) -> (edges: &Vec<Edge<K, E>>)
        ensures
            edges@ == self@.edges,
    {
        &self.adjacencies
    }

    /// Returns the keys of the adjacent nodes, one for each edge and in the
    /// order of the edges.
    pub fn nodes(&self) -> (keys: Vec<K>) where K: Copy
        ensures
            keys@ == self@.targets(),
    {
        let mut keys: Vec<K> = Vec::new();
        let mut i: usize = 0;
        while i < self.adjacencies.len()
            invariant
                i <= self.adjacencies.len(),
                keys@ == self@.targets().take(i as int),
            decreases self.adjacencies.len() - i,
        {
            keys.push(self.adjacencies[i].target);
            i += 1;
        }
        keys
    }
}

// A method that changes the graph takes the map out of it, changes the map
// and puts it back, so that the graph is well formed whenever it is whole.
impl<K: Hash + Eq, V, E: Copy> Graph<K, V, E> {
    /// The keys compare and hash as keys must, and every edge points to a
    /// key that is registered.
    #[verifier::type_invariant]
    spec fn well_formed(self) -> bool {
        &&& obeys_key_model::<K>()
        &&& targets_registered(self@)
    }

    /// Create a new graph with no nodes or edges.
    ///
    /// The graph finds its nodes by comparing and hashing keys, so the keys
    /// must be of a type whose `Eq` and `Hash` behave as those of a key.
    pub fn new() -> (graph: Self)
        requires
            obeys_key_model::<K>(),
        ensures
            graph@ == GraphView::<K, V, E>::empty(),
    {
        let graph = Graph { nodes: HashMap::new() };
        graph
    }

    /// Add a node to the graph. This node will have the given value, and
    /// no adjacencies. A node already registered under `key` is replaced,
    /// and its edges are dropped with it.
    pub fn add_node(&mut self, key: K, value: V)
        ensures
            final(self)@ == node_added(old(self)@, key, value),
            targets_registered(final(self)@),
    {
        proof {
            use_type_invariant(&*self);
            lemma_node_added_keeps_targets(self@, key, value);
        }
        let mut nodes = HashMap::new();
        std::mem::swap(&mut nodes, &mut self.nodes);
        nodes.insert(key, Node::new(value));
        assert(view_of(nodes@) =~= node_added(old(self)@, key, value));
        self.nodes = nodes;
    }

    /// Appends an edge to `to` at the node that `nodes` holds under `from`.
    fn add_arc(nodes: &mut HashMap<K, Node<K, V, E>>, from: K, to: K, weight: E)
        requires
            obeys_key_model::<K>(),
            old(nodes)@.contains_key(from),
        ensures
            view_of(final(nodes)@) == arc_added(view_of(old(nodes)@), from, to, weight),
            final(nodes)@.dom() == old(nodes)@.dom(),
    {
        match nodes.entry(from) {
            Entry::Occupied(slot) => {
                slot.into_mut().add_adjacency(Edge::new(weight, to));
            },
            Entry::Vacant(_) => {},
        }
    }

    /// Add an edge to the graph from `a` to `b`, and for a bidirectional
    /// edge also one from `b` to `a`.
    ///
    /// If either key is not registered the call changes nothing and reports
    /// nothing. A caller that needs to know looks the keys up with
    /// [`Graph::get`] first.
    pub fn add_edge(&mut self, a: K, b: K, weight: E, edge_type: EdgeType) where K: Copy
        ensures
            final(self)@ == edge_added(old(self)@, a, b, weight, edge_type),
            targets_registered(final(self)@),
    {
        proof {
            use_type_invariant(&*self);
            lemma_edge_added_keeps_targets(self@, a, b, weight, edge_type);
        }
        if self.nodes.contains_key(&a) && self.nodes.contains_key(&b) {
            let mut nodes = HashMap::new();
            std::mem::swap(&mut nodes, &mut self.nodes);
            Self::add_arc(&mut nodes, a, b, weight);
            match edge_type {
                EdgeType::Directional => {},
                EdgeType::Bidirectional => {
                    Self::add_arc(&mut nodes, b, a, weight);
                },
            }
            self.nodes = nodes;
        }
    }

    /// Add an edge from `a` to `b` and one from `b` to `a`, both of the
    /// given weight.
    pub fn connect(&mut self, a: K, b: K, weight: E) where K: Copy
        ensures
            final(self)@ == edge_added(old(self)@, a, b, weight, EdgeType::Bidirectional),
            targets_registered(final(self)@),
    {
        self.add_edge(a, b, weight, EdgeType::Bidirectional);
    }

    /// Returns the node of the given key if it is in the graph.
    ///
    /// Every edge of a node that is found points to a key that is in the
    /// graph too, so looking that key up finds a node again.
    pub fn get(&self, key: &K) -> (node: Option<&Node<K, V, E>>)
        ensures
            match node {
                Some(found) => self@.contains_key(*key) && found@ == self@[*key],
                None => !self@.contains_key(*key),
            },
            targets_registered(self@),
    {
        proof {
            use_type_invariant(self);
        }
        self.nodes.get(key)
    }
}

} // verus!
