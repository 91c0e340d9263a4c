//! Graphs are a collection of nodes and edges.
//!
//! There are various kinds of graphs and things to say about graphs, but at
//! their core, there are some number of nodes connected to some number of
//! other nodes through edges. Edges may have a direction, and/or a value
//! associated with them.

use vstd::prelude::*;

pub mod adjacency_list;
pub mod laws;

verus! {

/// Types of edges, some graphs do not support all types.
#[derive(Clone, Copy, Debug, PartialEq, Eq)]
pub enum EdgeType {
    /// A single edge from the source to the target.
    Directional,
    /// A mirrored pair of edges of the same weight, one in each direction.
    Bidirectional,
}

} // verus!
