//! The network graph: an undirected `petgraph` graph whose vertices are nodes
//! and whose edges are channels.
//!
//! Nothing in this file is proved. It declares the graph type to the verifier
//! and states, for each graph operation the simulator uses, what that
//! operation does to the sequence of nodes the graph holds. Positions in the
//! graph cross this boundary as plain `usize` values.

use vstd::prelude::*;
use petgraph::graph::NodeIndex;
use crate::medium::Medium;
use crate::node::Node;

verus! {

/// `petgraph::graph::Graph`, opaque to the verifier.
#[verifier::external_type_specification]
#[verifier::external_body]
#[verifier::reject_recursive_types(N)]
#[verifier::reject_recursive_types(E)]
#[verifier::reject_recursive_types(Ty)]
#[verifier::reject_recursive_types(Ix)]
pub struct ExGraph<N, E, Ty, Ix>(petgraph::graph::Graph<N, E, Ty, Ix>);

/// `petgraph::Undirected`, the marker for graphs with undirected edges.
#[verifier::external_type_specification]
#[verifier::external_body]
pub struct ExUndirected(petgraph::Undirected);

/// The graph of a simulation.
pub type NetworkGraph = petgraph::graph::Graph<Node, Medium, petgraph::Undirected, usize>;

/// The nodes a graph holds, each at the position of its index in the graph.
pub uninterp spec fn graph_nodes(graph: NetworkGraph) -> Seq<Node>;

/// `Graph::default`: a graph that holds no node.
#[verifier::external_body]
pub(crate) fn graph_empty() -> (graph: NetworkGraph)
    ensures
        graph_nodes(graph) == Seq::<Node>::empty(),
{
    NetworkGraph::default()
}

/// `Graph::add_node`: the node is appended after the nodes already held, and
/// the position returned is the one it then stands at, which is the number of
/// nodes held before. The other nodes keep their positions. With `usize`
/// indices the graph has no node limit of its own.
#[verifier::external_body]
pub(crate) fn graph_add_node(graph: &mut NetworkGraph, node: Node) -> (position: usize)
    ensures
        position == graph_nodes(*old(graph)).len(),
        graph_nodes(*final(graph)) == graph_nodes(*old(graph)).push(node),
{
    graph.add_node(node).index()
}

/// Indexing a `Graph` by a `NodeIndex`: the node held at that position. The
/// position must be one of a node the graph holds; indexing panics otherwise.
#[verifier::external_body]
pub(crate) fn graph_node(graph: &NetworkGraph, position: usize) -> (node: &Node)
    requires
        position < graph_nodes(*graph).len(),
    ensures
        *node == graph_nodes(*graph)[position as int],
{
    &graph[NodeIndex::new(position)]
}

} // verus!
