//! Analyses that join the functions of a module: building the call graph from what the
//! backend knows of the calls, and working out the context of each call.

use vstd::prelude::*;
use std::collections::BTreeMap;
use std::collections::HashMap;
use crate::callgraph::{bare_call, holds_together, CallContextInfo, CallContextView, CallGraph, CallGraphView};
use crate::function::RadecoFunction;
use crate::imports::ImportInfo;
use crate::index::NodeIndex;
use crate::module::RadecoModule;
use crate::source::{FunctionInfo, LCallInfo};
use crate::ssa::SSAConstruct;

verus! {

/// `nodes` with a node for `addr`, unless there is one already or no further node fits.
pub open spec fn with_node(nodes: Seq<u64>, addr: u64) -> Seq<u64> {
    if nodes.contains(addr) || nodes.len() >= u32::MAX {
        nodes
    } else {
        nodes.push(addr)
    }
}

/// The graph `v` after the function at node address `caller` was found to make the call `c`.
/// A call without a target or without an address, and one that goes to an address outside
/// `known`, adds nothing. Another one adds a node for its target, if that is new, and an edge
/// from the caller to the target, if both have a node and a further edge fits.
pub open spec fn with_call(v: CallGraphView, known: Set<u64>, caller: u64, c: LCallInfo)
    -> CallGraphView {
    match (c.target, c.source) {
        (Some(target), Some(csite)) => if known.contains(target) {
            let nodes = with_node(v.nodes, target);
            if nodes.contains(caller) && nodes.contains(target) && v.edges.len() < u32::MAX {
                CallGraphView {
                    nodes: nodes,
                    edges: v.edges.push(
                        (
                            NodeIndex(nodes.index_of(caller) as u32),
                            NodeIndex(nodes.index_of(target) as u32),
                            bare_call(csite),
                        ),
                    ),
                }
            } else {
                CallGraphView { nodes: nodes, edges: v.edges }
            }
        } else {
            v
        },
        _ => v,
    }
}

/// The graph `v` after the calls `calls` of the function at `caller`, taken in order.
pub open spec fn with_calls(v: CallGraphView, known: Set<u64>, caller: u64, calls: Seq<LCallInfo>)
    -> CallGraphView
    decreases calls.len(),
{
    if calls.len() == 0 {
        v
    } else {
        with_call(with_calls(v, known, caller, calls.drop_last()), known, caller, calls.last())
    }
}

/// The graph `v` after one entry of the backend's function list. An entry without an address,
/// and one at an address outside `known`, adds nothing. Another one adds a node for the
/// function, if that is new, and then its calls.
pub open spec fn with_function(v: CallGraphView, known: Set<u64>, info: FunctionInfo)
    -> CallGraphView {
    match info.offset {
        Some(offset) => if known.contains(offset) {
            let v1 = CallGraphView { nodes: with_node(v.nodes, offset), edges: v.edges };
            match info.callrefs {
                Some(calls) => with_calls(v1, known, offset, calls@),
                None => v1,
            }
        } else {
            v
        },
        None => v,
    }
}

/// The call graph that the backend's function list describes, restricted to the addresses in
/// `known`: the entries are taken in order, starting from the empty graph.
pub open spec fn call_graph_of(infos: Seq<FunctionInfo>, known: Set<u64>) -> CallGraphView
    decreases infos.len(),
{
    if infos.len() == 0 {
        CallGraphView { nodes: Seq::empty(), edges: Seq::empty() }
    } else {
        with_function(call_graph_of(infos.drop_last(), known), known, infos.last())
    }
}

/// No address labels two nodes, every label is in `known`, and the graph holds together.
pub open spec fn graph_sound(v: CallGraphView, known: Set<u64>) -> bool {
    &&& v.nodes.no_duplicates()
    &&& forall|i: int| 0 <= i < v.nodes.len() ==> known.contains(#[trigger] v.nodes[i])
    &&& holds_together(v)
}

/// `positions` says for each label of `nodes`, and for nothing else, which node bears it.
pub open spec fn tracks(positions: Map<u64, NodeIndex>, nodes: Seq<u64>) -> bool {
    &&& nodes.len() <= u32::MAX
    &&& forall|i: int|
        0 <= i < nodes.len() ==> {
            &&& positions.contains_key(#[trigger] nodes[i])
            &&& positions[nodes[i]].spec_index() == i
        }
    &&& forall|a: u64| #[trigger] positions.contains_key(a) ==> nodes.contains(a)
}

proof fn lemma_tracks_positions(positions: Map<u64, NodeIndex>, nodes: Seq<u64>, addr: u64)
    requires
        tracks(positions, nodes),
    ensures
        nodes.no_duplicates(),
        nodes.contains(addr) <==> positions.contains_key(addr),
        nodes.contains(addr) ==> positions[addr] == NodeIndex(nodes.index_of(addr) as u32)
            && 0 <= nodes.index_of(addr) < nodes.len(),
{
    if nodes.contains(addr) {
        let j = nodes.index_of(addr);
        assert(nodes[j] == addr);
    }
    assert forall|i: int, j: int| 0 <= i < nodes.len() && 0 <= j < nodes.len() && i != j implies
        nodes[i] != nodes[j] by {
        assert(positions[nodes[i]].spec_index() == i);
        assert(positions[nodes[j]].spec_index() == j);
    }
}

/// Gives `addr` a node unless it has one or no further node fits. Returns the node of `addr`,
/// if it has one now.
fn ensure_node(g: &mut CallGraph, positions: &mut HashMap<u64, NodeIndex>, addr: u64) -> (r:
    Option<NodeIndex>)
    requires
        tracks(old(positions)@, old(g)@.nodes),
    ensures
        tracks(final(positions)@, final(g)@.nodes),
        final(g)@.nodes == with_node(old(g)@.nodes, addr),
        final(g)@.edges == old(g)@.edges,
        match r {
            Some(n) => final(g)@.nodes.contains(addr) && n == NodeIndex(
                final(g)@.nodes.index_of(addr) as u32,
            ) && n.spec_index() < final(g)@.nodes.len(),
            None => !final(g)@.nodes.contains(addr) && final(g)@.nodes.len() >= u32::MAX,
        },
{
    broadcast use vstd::std_specs::hash::group_hash_axioms;

    proof {
        lemma_tracks_positions(positions@, g@.nodes, addr);
    }
    match positions.get(&addr) {
        Some(n) => Some(*n),
        None => {
            let ghost before = g@.nodes;
            match g.add_node(addr) {
                Some(n) => {
                    positions.insert(addr, n);
                    proof {
                        let after = g@.nodes;
                        assert(after[before.len() as int] == addr);
                        assert forall|i: int| 0 <= i < after.len() implies positions@.contains_key(
                            #[trigger] after[i],
                        ) && positions@[after[i]].spec_index() == i by {
                            if i < before.len() {
                                assert(after[i] == before[i]);
                                assert(before.contains(before[i]));
                            }
                        }
                        assert forall|a: u64| #[trigger]
                            positions@.contains_key(a) implies after.contains(a) by {
                            if a != addr {
                                let j = before.index_of(a);
                                assert(before.contains(a));
                                assert(after[j] == a);
                            }
                        }
                        lemma_tracks_positions(positions@, after, addr);
                    }
                    Some(n)
                },
                None => None,
            }
        },
    }
}

/// Is `addr` the address of a function or of an import of `rmod`?
pub fn is_known(rmod: &RadecoModule, addr: u64) -> (r: bool)
    ensures
        r == rmod.knows(addr),
{
    broadcast use vstd::std_specs::hash::group_hash_axioms;

    rmod.functions.contains_key(&addr) || rmod.imports.contains_key(&addr)
}

/// Builds the call graph of `rmod` from the backend's function list: a node for each listed
/// function of the module and for each function or import of the module that one of them
/// calls, and an edge for each such call.
pub fn load_call_graph(finfos: &Vec<FunctionInfo>, rmod: &RadecoModule) -> (cg: CallGraph)
    ensures
        cg@ == call_graph_of(finfos@, Set::new(|a: u64| rmod.knows(a))),
        graph_sound(cg@, Set::new(|a: u64| rmod.knows(a))),
{
    let ghost known = Set::new(|a: u64| rmod.knows(a));
    let mut cg = CallGraph::new();
    let mut positions: HashMap<u64, NodeIndex> = HashMap::new();
    let mut i: usize = 0;
    assert(finfos@.take(0) =~= Seq::empty());
    while i < finfos.len()
        invariant
            i <= finfos@.len(),
            known == Set::new(|a: u64| rmod.knows(a)),
            tracks(positions@, cg@.nodes),
            cg@ == call_graph_of(finfos@.take(i as int), known),
            graph_sound(cg@, known),
        decreases finfos@.len() - i,
    {
        let info = &finfos[i];
        proof {
            assert(finfos@.take(i + 1).drop_last() =~= finfos@.take(i as int));
            assert(finfos@.take(i + 1).last() == finfos@[i as int]);
        }
        match info.offset {
            Some(offset) => {
                if is_known(rmod, offset) {
                    let caller = ensure_node(&mut cg, &mut positions, offset);
                    proof {
                        lemma_tracks_positions(positions@, cg@.nodes, offset);
                    }
                    match &info.callrefs {
                        Some(calls) => {
                            let ghost v1 = cg@;
                            let mut k: usize = 0;
                            assert(calls@.take(0) =~= Seq::empty());
                            while k < calls.len()
                                invariant
                                    k <= calls@.len(),
                                    known == Set::new(|a: u64| rmod.knows(a)),
                                    tracks(positions@, cg@.nodes),
                                    cg@ == with_calls(
                                        v1,
                                        known,
                                        offset,
                                        calls@.take(k as int),
                                    ),
                                    graph_sound(cg@, known),
                                    match caller {
                                        Some(n) => cg@.nodes.contains(offset) && n
                                            == NodeIndex(cg@.nodes.index_of(offset) as u32)
                                            && n.spec_index() < cg@.nodes.len(),
                                        None => !cg@.nodes.contains(offset)
                                            && cg@.nodes.len() >= u32::MAX,
                                    },
                                decreases calls@.len() - k,
                            {
                                let c = &calls[k];
                                proof {
                                    assert(calls@.take(k + 1).drop_last() =~= calls@.take(
                                        k as int,
                                    ));
                                    assert(calls@.take(k + 1).last() == calls@[k as int]);
                                }
                                add_call(&mut cg, &mut positions, rmod, offset, caller, c);
                                k = k + 1;
                            }
                            assert(calls@.take(k as int) =~= calls@);
                        },
                        None => {},
                    }
                }
            },
            None => {},
        }
        i = i + 1;
    }
    assert(finfos@.take(i as int) =~= finfos@);
    cg
}

/// Adds what the call `c` of the function at `offset` adds to the graph.
fn add_call(
    cg: &mut CallGraph,
    positions: &mut HashMap<u64, NodeIndex>,
    rmod: &RadecoModule,
    offset: u64,
    caller: Option<NodeIndex>,
    c: &LCallInfo,
)
    requires
        tracks(old(positions)@, old(cg)@.nodes),
        graph_sound(old(cg)@, Set::new(|a: u64| rmod.knows(a))),
        match caller {
            Some(n) => old(cg)@.nodes.contains(offset) && n == NodeIndex(
                old(cg)@.nodes.index_of(offset) as u32,
            ) && n.spec_index() < old(cg)@.nodes.len(),
            None => !old(cg)@.nodes.contains(offset) && old(cg)@.nodes.len()
                >= u32::MAX,
        },
    ensures
        tracks(final(positions)@, final(cg)@.nodes),
        graph_sound(final(cg)@, Set::new(|a: u64| rmod.knows(a))),
        final(cg)@ == with_call(
            old(cg)@,
            Set::new(|a: u64| rmod.knows(a)),
            offset,
            *c,
        ),
        match caller {
            Some(n) => final(cg)@.nodes.contains(offset) && n == NodeIndex(
                final(cg)@.nodes.index_of(offset) as u32,
            ) && n.spec_index() < final(cg)@.nodes.len(),
            None => !final(cg)@.nodes.contains(offset) && final(cg)@.nodes.len()
                >= u32::MAX,
        },
{
    let ghost known = Set::new(|a: u64| rmod.knows(a));
    let ghost v0 = cg@;
    match (c.target, c.source) {
        (Some(target), Some(csite)) => {
            if is_known(rmod, target) {
                let callee = ensure_node(cg, positions, target);
                proof {
                    let nodes = cg@.nodes;
                    lemma_tracks_positions(positions@, nodes, offset);
                    lemma_tracks_positions(positions@, nodes, target);
                    if v0.nodes.contains(offset) {
                        let j = v0.nodes.index_of(offset);
                        assert(nodes[j] == offset);
                        assert(positions@[nodes[j]].spec_index() == j);
                    }
                    assert forall|i: int| 0 <= i < nodes.len() implies known.contains(
                        #[trigger] nodes[i],
                    ) by {
                        if i < v0.nodes.len() {
                            assert(nodes[i] == v0.nodes[i]);
                        }
                    }
                }
                match (caller, callee) {
                    (Some(from), Some(to)) => {
                        let info = CallContextInfo {
                            map: Vec::new(),
                            csite_node: NodeIndex(0),
                            csite: csite,
                        };
                        assert(info@ == bare_call(csite));
                        cg.add_edge(from, to, info);
                    },
                    _ => {},
                }
            }
        },
        _ => {},
    }
}

/// The function at `addr`, or, if there is none, the stub of the import at `addr`.
pub fn entry_at<'m>(
    functions: &'m BTreeMap<u64, RadecoFunction>,
    imports: &'m HashMap<u64, ImportInfo>,
    addr: u64,
) -> (r: Option<&'m RadecoFunction>)
    ensures
        r == if functions@.contains_key(addr) {
            Some(&functions@[addr])
        } else if imports@.contains_key(addr) {
            Some(&imports@[addr].rfn)
        } else {
            None
        },
{
    broadcast use vstd::std_specs::hash::group_hash_axioms;

    match functions.get(&addr) {
        Some(rfn) => Some(rfn),
        None => match imports.get(&addr) {
            Some(ifn) => Some(&ifn.rfn),
            None => None,
        },
    }
}

/// Is the address that labels node `n` the address of a function or import?
pub open spec fn is_known_node(
    g: CallGraphView,
    functions: Map<u64, RadecoFunction>,
    imports: Map<u64, ImportInfo>,
    n: NodeIndex,
) -> bool {
    n.spec_index() < g.nodes.len() && (functions.contains_key(g.nodes[n.spec_index()])
        || imports.contains_key(g.nodes[n.spec_index()]))
}

/// Do both ends of call `e` stand for a function or import?
pub open spec fn has_known_ends(
    g: CallGraphView,
    functions: Map<u64, RadecoFunction>,
    imports: Map<u64, ImportInfo>,
    e: int,
) -> bool {
    is_known_node(g, functions, imports, g.edges[e].0) && is_known_node(
        g,
        functions,
        imports,
        g.edges[e].1,
    )
}

/// Goes through the calls of the call graph and has the engine work out the context of each
/// call whose caller and callee are functions or imports of the module. The graph keeps its
/// nodes, and every call its ends and its address.
pub fn init_call_ctx(
    cg: &mut CallGraph,
    functions: &BTreeMap<u64, RadecoFunction>,
    imports: &HashMap<u64, ImportInfo>,
    engine: &dyn SSAConstruct,
)
    ensures
        final(cg)@.nodes == old(cg)@.nodes,
        final(cg)@.edges.len() == old(cg)@.edges.len(),
        forall|e: int|
            0 <= e < old(cg)@.edges.len() ==> {
                &&& (#[trigger] final(cg)@.edges[e]).0 == old(cg)@.edges[e].0
                &&& final(cg)@.edges[e].1 == old(cg)@.edges[e].1
                &&& final(cg)@.edges[e].2.csite == old(cg)@.edges[e].2.csite
                &&& !has_known_ends(old(cg)@, functions@, imports@, e)
                    ==> final(cg)@.edges[e] == old(cg)@.edges[e]
            },
{
    let count = cg.edge_count();
    let mut e: usize = 0;
    while e < count
        invariant
            e <= count,
            count == old(cg)@.edges.len(),
            cg@.nodes == old(cg)@.nodes,
            cg@.edges.len() == old(cg)@.edges.len(),
            forall|i: int|
                0 <= i < old(cg)@.edges.len() ==> {
                    &&& (#[trigger] cg@.edges[i]).0 == old(cg)@.edges[i].0
                    &&& cg@.edges[i].1 == old(cg)@.edges[i].1
                    &&& cg@.edges[i].2.csite == old(cg)@.edges[i].2.csite
                    &&& (i >= e || !has_known_ends(old(cg)@, functions@, imports@, i))
                        ==> cg@.edges[i] == old(cg)@.edges[i]
                },
        decreases count - e,
    {
        let ends = cg.edge_endpoints(e);
        let csite = match cg.edge_weight(e) {
            Some(w) => w.csite,
            None => 0,
        };
        match ends {
            Some((from, to)) => {
                let caller = match cg.node_weight(from) {
                    Some(addr) => entry_at(functions, imports, addr),
                    None => None,
                };
                let callee = match cg.node_weight(to) {
                    Some(addr) => entry_at(functions, imports, addr),
                    None => None,
                };
                match (caller, callee) {
                    (Some(caller), Some(callee)) => {
                        let (csite_node, map) = engine.call_context(caller, callee, csite);
                        set_call_context(cg, e, csite_node, map);
                    },
                    _ => {},
                }
            },
            None => {},
        }
        e = e + 1;
    }
}

/// Records with call `e` the context that was worked out for it: the node of the call in the
/// caller, and the pairs of a node of the caller and a node of the callee. The call keeps its
/// ends and its address. Returns whether there is such a call; if not, nothing changes.
pub fn set_call_context(
    cg: &mut CallGraph,
    e: usize,
    csite_node: NodeIndex,
    map: Vec<(NodeIndex, NodeIndex)>,
) -> (done: bool)
    ensures
        done == (e < old(cg)@.edges.len()),
        final(cg)@ == if done {
            CallGraphView {
                nodes: old(cg)@.nodes,
                edges: old(cg)@.edges.update(
                    e as int,
                    (
                        old(cg)@.edges[e as int].0,
                        old(cg)@.edges[e as int].1,
                        CallContextView {
                            map: map@,
                            csite_node: csite_node,
                            csite: old(cg)@.edges[e as int].2.csite,
                        },
                    ),
                ),
            }
        } else {
            old(cg)@
        },
{
    let csite = match cg.edge_weight(e) {
        Some(w) => Some(w.csite),
        None => None,
    };
    match csite {
        Some(csite) => cg.set_edge_weight(
            e,
            CallContextInfo { map: map, csite_node: csite_node, csite: csite },
        ),
        None => false,
    }
}

} // verus!
