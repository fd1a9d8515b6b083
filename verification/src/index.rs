//! Identifiers of nodes in the call graph and in the SSA form of a function.

use vstd::prelude::*;

verus! {

/// Position of a node in a graph with at most `u32::MAX` nodes.
///
/// The largest value is reserved: it names no node and stands for "no such node".
#[derive(Clone, Copy, Debug, PartialEq, Eq, Hash, Structural)]
pub struct NodeIndex(pub u32);

impl NodeIndex {
    /// The number this index stands for.
    pub open spec fn spec_index(self) -> int {
        self.0 as int
    }

    /// The reserved index that names no node.
    pub open spec fn spec_end() -> NodeIndex {
        NodeIndex(u32::MAX)
    }

    /// The index of the node at position `x`.
    pub fn new(x: usize) -> (r: NodeIndex)
        requires
            x <= u32::MAX,
        ensures
            r.spec_index() == x,
    {
        NodeIndex(x as u32)
    }

    /// The position this index names.
    pub fn index(self) -> (r: usize)
        ensures
            r == self.spec_index(),
    {
        self.0 as usize
    }

    /// The reserved index that names no node.
    pub fn end() -> (r: NodeIndex)
        ensures
            r == NodeIndex::spec_end(),
    {
        NodeIndex(u32::MAX)
    }
}

impl Default for NodeIndex {
    fn default() -> (r: NodeIndex)
        ensures
            r == NodeIndex(0),
    {
        NodeIndex(0)
    }
}

} // verus!
