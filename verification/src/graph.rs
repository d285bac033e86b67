//! The directed graph of `petgraph` that holds the task dependencies, seen
//! through the node weights and edge list that it holds.

use vstd::prelude::*;

verus! {

/// `petgraph::graph::Graph`, held by the execution graph.
#[verifier::external_type_specification]
#[verifier::external_body]
#[verifier::reject_recursive_types(N)]
#[verifier::reject_recursive_types(E)]
#[verifier::reject_recursive_types(Ty)]
#[verifier::reject_recursive_types(Ix)]
pub struct ExGraph<N, E, Ty, Ix>(petgraph::graph::Graph<N, E, Ty, Ix>);

/// `petgraph::Directed`, the edge kind of a directed graph.
#[verifier::external_type_specification]
#[verifier::external_body]
pub struct ExDirected(petgraph::Directed);

/// The node weights of a task graph, in the order in which the nodes were
/// added; a node's index is its position here.
pub uninterp spec fn graph_weights(g: petgraph::graph::Graph<u128, (), petgraph::Directed, u32>) -> Seq<u128>;

/// The edges of a task graph as (source index, target index) pairs, in the
/// order in which they were added.
pub uninterp spec fn graph_edges(g: petgraph::graph::Graph<u128, (), petgraph::Directed, u32>) -> Seq<(int, int)>;

/// The sources of the edges that end at node `a`, the most recently added
/// edge first.
pub open spec fn incoming_sources(edges: Seq<(int, int)>, a: int) -> Seq<int>
    decreases edges.len(),
{
    if edges.len() == 0 {
        Seq::empty()
    } else {
        let rest = incoming_sources(edges.drop_last(), a);
        if edges.last().1 == a {
            seq![edges.last().0].add(rest)
        } else {
            rest
        }
    }
}

/// The targets of the edges that start at node `a`, the most recently added
/// edge first.
pub open spec fn outgoing_targets(edges: Seq<(int, int)>, a: int) -> Seq<int>
    decreases edges.len(),
{
    if edges.len() == 0 {
        Seq::empty()
    } else {
        let rest = outgoing_targets(edges.drop_last(), a);
        if edges.last().0 == a {
            seq![edges.last().1].add(rest)
        } else {
            rest
        }
    }
}

/// Whether `path` is a walk of at least one edge that ends where it starts.
pub open spec fn is_closed_walk(edges: Seq<(int, int)>, path: Seq<int>) -> bool {
    &&& path.len() >= 2
    &&& path[0] == path.last()
    &&& forall|i: int| 0 <= i < path.len() - 1 ==> #[trigger] edges.contains((path[i], path[i + 1]))
}

/// Whether the edges contain a directed cycle.
pub open spec fn has_cycle(edges: Seq<(int, int)>) -> bool {
    exists|path: Seq<int>| is_closed_walk(edges, path)
}

/// The directed task graph of `petgraph`, node weights being task ids.
pub type TaskGraph = petgraph::graph::Graph<u128, (), petgraph::Directed, u32>;

/// `petgraph::graph::Graph::new`: a directed graph without nodes or edges.
#[verifier::external_body]
pub(crate) fn graph_new() -> (g: TaskGraph)
    ensures
        graph_weights(g) == Seq::<u128>::empty(),
        graph_edges(g) == Seq::<(int, int)>::empty(),
{
    petgraph::graph::Graph::new()
}

/// `petgraph::graph::Graph::add_node`: appends a node and returns its index,
/// the former node count. It panics at `u32::MAX` nodes, which `requires`
/// leaves out.
#[verifier::external_body]
pub(crate) fn graph_add_node(g: &mut TaskGraph, weight: u128) -> (index: usize)
    requires
        graph_weights(*old(g)).len() < u32::MAX,
    ensures
        index == graph_weights(*old(g)).len(),
        graph_weights(*final(g)) == graph_weights(*old(g)).push(weight),
        graph_edges(*final(g)) == graph_edges(*old(g)),
{
    g.add_node(weight).index()
}

/// `petgraph::graph::Graph::add_edge`: appends an edge from `a` to `b`. It
/// panics when a node does not exist or at `u32::MAX` edges, which
/// `requires` leaves out.
#[verifier::external_body]
pub(crate) fn graph_add_edge(g: &mut TaskGraph, a: usize, b: usize)
    requires
        a < graph_weights(*old(g)).len(),
        b < graph_weights(*old(g)).len(),
        graph_edges(*old(g)).len() < u32::MAX,
    ensures
        graph_weights(*final(g)) == graph_weights(*old(g)),
        graph_edges(*final(g)) == graph_edges(*old(g)).push((a as int, b as int)),
{
    g.add_edge(petgraph::graph::NodeIndex::new(a), petgraph::graph::NodeIndex::new(b), ());
}

/// `petgraph::graph::Graph::node_count`: the number of nodes.
#[verifier::external_body]
pub(crate) fn graph_node_count(g: &TaskGraph) -> (n: usize)
    ensures
        n == graph_weights(*g).len(),
{
    g.node_count()
}

/// `petgraph::graph::Graph::node_weight`: the weight of node `a`.
#[verifier::external_body]
pub(crate) fn graph_node_weight(g: &TaskGraph, a: usize) -> (w: Option<u128>)
    requires
        a < graph_weights(*g).len(),
    ensures
        w == Some(graph_weights(*g)[a as int]),
{
    g.node_weight(petgraph::graph::NodeIndex::new(a)).copied()
}

/// `petgraph::graph::Graph::neighbors_directed`, collected: the neighbors of
/// node `a` along its incoming edges (their sources) or its outgoing edges
/// (their targets), the most recently added edge first, as the crate
/// documents for directed graphs.
#[verifier::external_body]
pub(crate) fn graph_neighbors(g: &TaskGraph, a: usize, incoming: bool) -> (r: Vec<usize>)
    requires
        a < graph_weights(*g).len(),
    ensures
        r@.map_values(|i: usize| i as int) == if incoming {
            incoming_sources(graph_edges(*g), a as int)
        } else {
            outgoing_targets(graph_edges(*g), a as int)
        },
{
    let dir = if incoming {
        petgraph::Direction::Incoming
    } else {
        petgraph::Direction::Outgoing
    };
    g.neighbors_directed(petgraph::graph::NodeIndex::new(a), dir).map(|n| n.index()).collect()
}

/// `petgraph::algo::is_cyclic_directed`: whether the graph has a directed
/// cycle (a self-loop counts as one).
#[verifier::external_body]
pub(crate) fn graph_is_cyclic(g: &TaskGraph) -> (b: bool)
    ensures
        b == has_cycle(graph_edges(*g)),
{
    petgraph::algo::is_cyclic_directed(g)
}

} // verus!
