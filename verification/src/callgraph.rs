//! The call graph of a module: a node for each function, labelled with its start address, and
//! an edge for each call, labelled with the address of the call and what is known of it.

use vstd::prelude::*;
use crate::index::NodeIndex;

verus! {

/// What is known of one call.
#[derive(Clone, Debug)]
pub struct CallContextInfo {
    /// Pairs of a node of the caller and the node of the callee that receives its value.
    pub map: Vec<(NodeIndex, NodeIndex)>,
    /// The node of the call in the caller.
    pub csite_node: NodeIndex,
    /// Address of the call.
    pub csite: u64,
}

/// The value of a `CallContextInfo`.
pub struct CallContextView {
    pub map: Seq<(NodeIndex, NodeIndex)>,
    pub csite_node: NodeIndex,
    pub csite: u64,
}

impl View for CallContextInfo {
    type V = CallContextView;

    open spec fn view(&self) -> CallContextView {
        CallContextView { map: self.map@, csite_node: self.csite_node, csite: self.csite }
    }
}

/// What is known of a call at `csite` before its context has been worked out.
pub open spec fn bare_call(csite: u64) -> CallContextView {
    CallContextView { map: Seq::empty(), csite_node: NodeIndex(0), csite: csite }
}

impl Default for CallContextInfo {
    fn default() -> (r: CallContextInfo)
        ensures
            r@ == bare_call(0),
    {
        CallContextInfo { map: Vec::new(), csite_node: NodeIndex(0), csite: 0 }
    }
}

/// `petgraph::graph::Graph`: a graph with labelled nodes and edges, any number of edges
/// between two nodes. Nothing is seen of what is inside; what it holds goes by the names
/// `graph_nodes` and `graph_edges`.
#[verifier::external_type_specification]
#[verifier::external_body]
#[verifier::reject_recursive_types(N)]
#[verifier::reject_recursive_types(E)]
#[verifier::reject_recursive_types(Ty)]
#[verifier::reject_recursive_types(Ix)]
pub struct ExGraph<N, E, Ty, Ix>(petgraph::graph::Graph<N, E, Ty, Ix>);

/// `petgraph::Directed`: the marker of graphs whose edges have a direction.
#[verifier::external_type_specification]
#[verifier::external_body]
pub struct ExDirected(petgraph::Directed);

/// The labels of the nodes of a graph, by node index.
pub uninterp spec fn graph_nodes(g: petgraph::graph::Graph<u64, CallContextInfo>) -> Seq<u64>;

/// The edges of a graph, by edge index: for each the node it leaves, the node it enters and
/// its label.
pub uninterp spec fn graph_edges(g: petgraph::graph::Graph<u64, CallContextInfo>) -> Seq<
    (NodeIndex, NodeIndex, CallContextView),
>;

/// One edge: the calling node, the called node, and what is known of the call.
pub type CallEdge = (NodeIndex, NodeIndex, CallContextView);

/// Nodes and edges of a call graph.
pub struct CallGraphView {
    /// The start addresses that label the nodes, by node index.
    pub nodes: Seq<u64>,
    /// The calls, in the order in which they were added.
    pub edges: Seq<CallEdge>,
}

/// The call graph of a module. Every node is labelled with the start address of a function,
/// every edge is a call. The graph inside is reached through the functions of this file
/// alone, and none of them removes a node or an edge: so the index of a node or edge is its
/// place in the order of addition.
pub struct CallGraph {
    graph: petgraph::graph::Graph<u64, CallContextInfo>,
}

impl View for CallGraph {
    type V = CallGraphView;

    closed spec fn view(&self) -> CallGraphView {
        CallGraphView { nodes: graph_nodes(self.graph), edges: graph_edges(self.graph) }
    }
}

/// Node and edge indices fit in 32 bits, the largest value left out, and every edge joins
/// two nodes.
pub open spec fn holds_together(v: CallGraphView) -> bool {
    &&& v.nodes.len() <= u32::MAX
    &&& v.edges.len() <= u32::MAX
    &&& forall|e: int|
        0 <= e < v.edges.len() ==> {
            &&& (#[trigger] v.edges[e]).0.spec_index() < v.nodes.len()
            &&& v.edges[e].1.spec_index() < v.nodes.len()
        }
}

/// The side of a node on which an edge lies.
#[derive(Clone, Copy, Debug, PartialEq, Eq, Structural)]
pub enum EdgeSide {
    /// Edges that leave the node.
    Outgoing,
    /// Edges that enter the node.
    Incoming,
}

/// Does `e` leave `a` (for `Outgoing`) or enter it (for `Incoming`)?
pub open spec fn touches(e: CallEdge, a: NodeIndex, side: EdgeSide) -> bool {
    match side {
        EdgeSide::Outgoing => e.0 == a,
        EdgeSide::Incoming => e.1 == a,
    }
}

/// The positions in `edges` of the edges on the given side of `a`, the last added first.
pub open spec fn incident(edges: Seq<CallEdge>, a: NodeIndex, side: EdgeSide) -> Seq<usize>
    decreases edges.len(),
{
    if edges.len() == 0 {
        Seq::empty()
    } else {
        let rest = incident(edges.drop_last(), a, side);
        if touches(edges.last(), a, side) {
            seq![(edges.len() - 1) as usize] + rest
        } else {
            rest
        }
    }
}

/// `petgraph::graph::Graph::new`: a graph without nodes and edges.
#[verifier::external_body]
fn graph_new() -> (g: CallGraph)
    ensures
        graph_nodes(g.graph) == Seq::<u64>::empty(),
        graph_edges(g.graph) == Seq::<CallEdge>::empty(),
{
    CallGraph { graph: petgraph::graph::Graph::new() }
}

/// `Graph::node_count`: the number of nodes.
#[verifier::external_body]
fn graph_node_count(g: &CallGraph) -> (n: usize)
    ensures
        n == graph_nodes(g.graph).len(),
{
    g.graph.node_count()
}

/// `Graph::edge_count`: the number of edges.
#[verifier::external_body]
fn graph_edge_count(g: &CallGraph) -> (n: usize)
    ensures
        n == graph_edges(g.graph).len(),
{
    g.graph.edge_count()
}

/// `Graph::add_node`: appends a node with the given label and returns its index, which is the
/// number of nodes before. The edges stay. It panics once the index would reach `u32::MAX`.
#[verifier::external_body]
fn graph_add_node(g: &mut CallGraph, addr: u64) -> (n: NodeIndex)
    requires
        graph_nodes(old(g).graph).len() < u32::MAX,
    ensures
        graph_nodes(final(g).graph) == graph_nodes(old(g).graph).push(addr),
        graph_edges(final(g).graph) == graph_edges(old(g).graph),
        n.spec_index() == graph_nodes(old(g).graph).len(),
{
    NodeIndex::new(g.graph.add_node(addr).index())
}

/// `Graph::add_edge`: appends an edge from `a` to `b` with the given label and returns its
/// index, which is the number of edges before. The nodes stay. It panics if `a` or `b` is no
/// node, and once the index would reach `u32::MAX`.
#[verifier::external_body]
fn graph_add_edge(g: &mut CallGraph, a: NodeIndex, b: NodeIndex, w: CallContextInfo) -> (e: usize)
    requires
        a.spec_index() < graph_nodes(old(g).graph).len(),
        b.spec_index() < graph_nodes(old(g).graph).len(),
        graph_edges(old(g).graph).len() < u32::MAX,
    ensures
        graph_edges(final(g).graph) == graph_edges(old(g).graph).push((a, b, w@)),
        graph_nodes(final(g).graph) == graph_nodes(old(g).graph),
        e == graph_edges(old(g).graph).len(),
{
    let a = petgraph::graph::NodeIndex::new(a.index());
    let b = petgraph::graph::NodeIndex::new(b.index());
    g.graph.add_edge(a, b, w).index()
}

/// `Graph::node_weight`: the label of node `a`, or `None` if there is no such node.
#[verifier::external_body]
fn graph_node_weight(g: &CallGraph, a: NodeIndex) -> (w: Option<u64>)
    ensures
        w == if a.spec_index() < graph_nodes(g.graph).len() {
            Some(graph_nodes(g.graph)[a.spec_index()])
        } else {
            None
        },
{
    g.graph.node_weight(petgraph::graph::NodeIndex::new(a.index())).copied()
}

/// `Graph::edge_endpoints`: the node that edge `e` leaves and the node that it enters.
#[verifier::external_body]
fn graph_edge_endpoints(g: &CallGraph, e: usize) -> (r: Option<(NodeIndex, NodeIndex)>)
    requires
        e < graph_edges(g.graph).len(),
    ensures
        r == Some((graph_edges(g.graph)[e as int].0, graph_edges(g.graph)[e as int].1)),
{
    g.graph.edge_endpoints(petgraph::graph::EdgeIndex::new(e)).map(
        |(a, b)| (NodeIndex::new(a.index()), NodeIndex::new(b.index())),
    )
}

/// `Graph::edge_weight`: the label of edge `e`.
#[verifier::external_body]
fn graph_edge_weight(g: &CallGraph, e: usize) -> (r: Option<&CallContextInfo>)
    requires
        e < graph_edges(g.graph).len(),
    ensures
        r is Some,
        r.unwrap()@ == graph_edges(g.graph)[e as int].2,
{
    g.graph.edge_weight(petgraph::graph::EdgeIndex::new(e))
}

/// Indexing a `Graph` by an edge index, to write: gives edge `e` the label `w`. Nothing else
/// changes. It panics if there is no such edge.
#[verifier::external_body]
fn graph_set_edge_weight(g: &mut CallGraph, e: usize, w: CallContextInfo)
    requires
        e < graph_edges(old(g).graph).len(),
    ensures
        graph_edges(final(g).graph) == graph_edges(old(g).graph).update(
            e as int,
            (graph_edges(old(g).graph)[e as int].0, graph_edges(old(g).graph)[e as int].1, w@),
        ),
        graph_nodes(final(g).graph) == graph_nodes(old(g).graph),
{
    g.graph[petgraph::graph::EdgeIndex::new(e)] = w;
}

/// `Graph::edges_directed`: the indices of the edges on the given side of `a`, the last added
/// first; none if `a` is no node.
#[verifier::external_body]
fn graph_edges_directed(g: &CallGraph, a: NodeIndex, side: EdgeSide) -> (es: Vec<usize>)
    ensures
        es@ == incident(graph_edges(g.graph), a, side),
{
    let dir = match side {
        EdgeSide::Outgoing => petgraph::Direction::Outgoing,
        EdgeSide::Incoming => petgraph::Direction::Incoming,
    };
    g.graph.edges_directed(petgraph::graph::NodeIndex::new(a.index()), dir).map(
        |er| petgraph::visit::EdgeRef::id(&er).index(),
    ).collect()
}

impl CallGraph {
    #[verifier::type_invariant]
    closed spec fn inv(&self) -> bool {
        holds_together(self@)
    }

    /// A call graph without nodes and edges.
    pub fn new() -> (g: CallGraph)
        ensures
            g@ == (CallGraphView { nodes: Seq::empty(), edges: Seq::empty() }),
    {
        graph_new()
    }

    /// The number of nodes.
    pub fn node_count(&self) -> (n: usize)
        ensures
            n == self@.nodes.len(),
            holds_together(self@),
    {
        proof {
            use_type_invariant(self);
        }
        graph_node_count(self)
    }

    /// The number of edges.
    pub fn edge_count(&self) -> (n: usize)
        ensures
            n == self@.edges.len(),
            holds_together(self@),
    {
        proof {
            use_type_invariant(self);
        }
        graph_edge_count(self)
    }

    /// The address that labels node `a`, or `None` if there is no such node.
    pub fn node_weight(&self, a: NodeIndex) -> (w: Option<u64>)
        ensures
            w == if a.spec_index() < self@.nodes.len() {
                Some(self@.nodes[a.spec_index()])
            } else {
                None
            },
    {
        graph_node_weight(self, a)
    }

    /// The calling and the called node of call `e`, or `None` if there is no such call.
    pub fn edge_endpoints(&self, e: usize) -> (r: Option<(NodeIndex, NodeIndex)>)
        ensures
            r == if e < self@.edges.len() {
                Some((self@.edges[e as int].0, self@.edges[e as int].1))
            } else {
                None
            },
    {
        if e < graph_edge_count(self) {
            graph_edge_endpoints(self, e)
        } else {
            None
        }
    }

    /// What is known of call `e`, or `None` if there is no such call.
    pub fn edge_weight(&self, e: usize) -> (r: Option<&CallContextInfo>)
        ensures
            match r {
                Some(w) => e < self@.edges.len() && w@ == self@.edges[e as int].2,
                None => e >= self@.edges.len(),
            },
    {
        if e < graph_edge_count(self) {
            graph_edge_weight(self, e)
        } else {
            None
        }
    }

    /// Adds a node labelled `addr` and returns its index. If no further node fits, nothing
    /// changes.
    pub fn add_node(&mut self, addr: u64) -> (r: Option<NodeIndex>)
        ensures
            r is Some <==> old(self)@.nodes.len() < u32::MAX,
            match r {
                Some(n) => {
                    &&& n.spec_index() == old(self)@.nodes.len()
                    &&& final(self)@ == (CallGraphView {
                        nodes: old(self)@.nodes.push(addr),
                        edges: old(self)@.edges,
                    })
                },
                None => final(self)@ == old(self)@,
            },
    {
        proof {
            use_type_invariant(&*self);
        }
        if graph_node_count(self) < u32::MAX as usize {
            let n = graph_add_node(self, addr);
            Some(n)
        } else {
            None
        }
    }

    /// Adds a call from node `a` to node `b` and returns its index. If `a` or `b` is no node,
    /// or no further edge fits, nothing changes.
    pub fn add_edge(&mut self, a: NodeIndex, b: NodeIndex, w: CallContextInfo) -> (r: Option<usize>)
        ensures
            r is Some <==> (a.spec_index() < old(self)@.nodes.len() && b.spec_index() < old(
                self,
            )@.nodes.len() && old(self)@.edges.len() < u32::MAX),
            match r {
                Some(e) => {
                    &&& e == old(self)@.edges.len()
                    &&& final(self)@ == (CallGraphView {
                        nodes: old(self)@.nodes,
                        edges: old(self)@.edges.push((a, b, w@)),
                    })
                },
                None => final(self)@ == old(self)@,
            },
    {
        proof {
            use_type_invariant(&*self);
        }
        let nodes = graph_node_count(self);
        if a.index() < nodes && b.index() < nodes && graph_edge_count(self) < u32::MAX as usize {
            let e = graph_add_edge(self, a, b, w);
            Some(e)
        } else {
            None
        }
    }

    /// Replaces what is known of call `e`. Returns whether there is such a call; if not,
    /// nothing changes.
    pub fn set_edge_weight(&mut self, e: usize, w: CallContextInfo) -> (done: bool)
        ensures
            done == (e < old(self)@.edges.len()),
            final(self)@ == if done {
                CallGraphView {
                    nodes: old(self)@.nodes,
                    edges: old(self)@.edges.update(
                        e as int,
                        (old(self)@.edges[e as int].0, old(self)@.edges[e as int].1, w@),
                    ),
                }
            } else {
                old(self)@
            },
    {
        proof {
            use_type_invariant(&*self);
        }
        if e < graph_edge_count(self) {
            graph_set_edge_weight(self, e, w);
            true
        } else {
            false
        }
    }
}

impl Default for CallGraph {
    fn default() -> (g: CallGraph)
        ensures
            g@ == (CallGraphView { nodes: Seq::empty(), edges: Seq::empty() }),
    {
        CallGraph::new()
    }
}

/// Every position that `incident` gives is the position of an edge.
proof fn lemma_incident_in_range(edges: Seq<CallEdge>, a: NodeIndex, side: EdgeSide)
    ensures
        forall|i: int|
            0 <= i < incident(edges, a, side).len() ==> (#[trigger] incident(edges, a, side)[i])
                < edges.len(),
    decreases edges.len(),
{
    if edges.len() > 0 {
        let rest = incident(edges.drop_last(), a, side);
        lemma_incident_in_range(edges.drop_last(), a, side);
        assert forall|i: int| 0 <= i < incident(edges, a, side).len() implies (#[trigger] incident(
            edges,
            a,
            side,
        )[i]) < edges.len() by {
            if touches(edges.last(), a, side) {
                if i > 0 {
                    assert(incident(edges, a, side)[i] == rest[i - 1]);
                }
            } else {
                assert(incident(edges, a, side)[i] == rest[i]);
            }
        }
    }
}

/// The calls on the given side of node `a`, the last added first: for each, the address of
/// the call and the node at the other end.
pub open spec fn calls_at(edges: Seq<CallEdge>, a: NodeIndex, side: EdgeSide) -> Seq<
    (u64, NodeIndex),
> {
    incident(edges, a, side).map_values(
        |e: usize|
            (
                edges[e as int].2.csite,
                match side {
                    EdgeSide::Outgoing => edges[e as int].1,
                    EdgeSide::Incoming => edges[e as int].0,
                },
            ),
    )
}

/// The calls on the given side of node `idx`.
pub fn calls_of(g: &CallGraph, idx: NodeIndex, side: EdgeSide) -> (r: Vec<(u64, NodeIndex)>)
    ensures
        r@ == calls_at(g@.edges, idx, side),
{
    let es = graph_edges_directed(g, idx, side);
    proof {
        lemma_incident_in_range(g@.edges, idx, side);
    }
    let mut r: Vec<(u64, NodeIndex)> = Vec::new();
    let mut i: usize = 0;
    while i < es.len()
        invariant
            i <= es@.len(),
            es@ == incident(g@.edges, idx, side),
            forall|k: int| 0 <= k < es@.len() ==> (#[trigger] es@[k]) < g@.edges.len(),
            r@ == calls_at(g@.edges, idx, side).take(i as int),
        decreases es@.len() - i,
    {
        let e = es[i];
        let ends = g.edge_endpoints(e);
        let info = g.edge_weight(e);
        match (ends, info) {
            (Some((from, to)), Some(w)) => {
                let other = match side {
                    EdgeSide::Outgoing => to,
                    EdgeSide::Incoming => from,
                };
                r.push((w.csite, other));
            },
            _ => {
                assert(false);
            },
        }
        assert(r@ =~= calls_at(g@.edges, idx, side).take(i + 1));
        i = i + 1;
    }
    assert(calls_at(g@.edges, idx, side).take(i as int) =~= calls_at(
        g@.edges,
        idx,
        side,
    ));
    r
}

/// Who calls a function, and whom it calls.
pub trait CGInfo {
    /// For each call of the function at node `idx`: the address of the call and the node of
    /// the caller.
    fn callers(&self, idx: NodeIndex) -> Vec<(u64, NodeIndex)>;

    /// For each call that the function at node `idx` makes: the address of the call and the
    /// node of the callee.
    fn callees(&self, idx: NodeIndex) -> Vec<(u64, NodeIndex)>;
}

impl CGInfo for CallGraph {
    fn callers(&self, idx: NodeIndex) -> (r: Vec<(u64, NodeIndex)>)
        ensures
            r@ == calls_at(self@.edges, idx, EdgeSide::Incoming),
    {
        calls_of(self, idx, EdgeSide::Incoming)
    }

    fn callees(&self, idx: NodeIndex) -> (r: Vec<(u64, NodeIndex)>)
        ensures
            r@ == calls_at(self@.edges, idx, EdgeSide::Outgoing),
    {
        calls_of(self, idx, EdgeSide::Outgoing)
    }
}

} // verus!
