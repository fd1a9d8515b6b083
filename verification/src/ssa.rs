//! Storage for the SSA form of one function, as far as the loaders read it, and the interface
//! of the engine that builds it.

use vstd::prelude::*;
use crate::index::NodeIndex;
use crate::function::RadecoFunction;
use crate::source::LRegInfo;

verus! {

/// What a node of the SSA form is.
#[derive(Clone, Debug)]
pub enum NodeType {
    /// An operation.
    Op,
    /// A phi node.
    Phi,
    /// A value that is only named, such as the value of a register at function entry.
    Comment(String),
    /// A value nothing is known of.
    Undefined,
}

/// The payload of a node.
#[derive(Clone, Debug)]
pub struct NodeData {
    pub nt: NodeType,
}

/// One node: its payload, its operands in order, and, for a block, the node whose operands
/// are the values of the registers in that block.
#[derive(Clone, Debug)]
pub struct SSANode {
    pub data: NodeData,
    pub operands: Vec<NodeIndex>,
    pub registers: Option<NodeIndex>,
}

/// The SSA form of one function. A node is named by its position in `nodes`.
#[derive(Clone, Debug)]
pub struct SSAStorage {
    pub nodes: Vec<SSANode>,
    pub entry: Option<NodeIndex>,
    pub exit: Option<NodeIndex>,
}

impl SSAStorage {
    /// Nothing has been stored: no node, no entry, no exit.
    pub open spec fn is_blank(&self) -> bool {
        &&& self.nodes@.len() == 0
        &&& self.entry is None
        &&& self.exit is None
    }

    /// Does `n` name a node of this storage?
    pub open spec fn has_node(&self, n: NodeIndex) -> bool {
        n.spec_index() < self.nodes@.len()
    }

    /// The payload of node `n`, if there is such a node.
    pub open spec fn spec_node_data(&self, n: NodeIndex) -> Option<NodeData> {
        if self.has_node(n) {
            Some(self.nodes@[n.spec_index()].data)
        } else {
            None
        }
    }

    /// The register-state node of block `n`, if `n` is a node and has one.
    pub open spec fn spec_registers_in(&self, n: NodeIndex) -> Option<NodeIndex> {
        if self.has_node(n) {
            self.nodes@[n.spec_index()].registers
        } else {
            None
        }
    }

    /// The operands of node `n` in order; none if there is no such node.
    pub open spec fn spec_operands_of(&self, n: NodeIndex) -> Seq<NodeIndex> {
        if self.has_node(n) {
            self.nodes@[n.spec_index()].operands@
        } else {
            Seq::empty()
        }
    }

    /// The registers' values in block `b`: the operands of its register-state node.
    pub open spec fn snapshot(&self, b: Option<NodeIndex>) -> Option<Seq<NodeIndex>> {
        match b {
            Some(n) => match self.spec_registers_in(n) {
                Some(r) => Some(self.spec_operands_of(r)),
                None => None,
            },
            None => None,
        }
    }

    /// Both the entry and the exit block are marked and have a register state.
    pub open spec fn has_register_states(&self) -> bool {
        self.snapshot(self.entry) is Some && self.snapshot(self.exit) is Some
    }

    /// A storage that holds nothing.
    pub fn new() -> (r: SSAStorage)
        ensures
            r.is_blank(),
    {
        SSAStorage { nodes: Vec::new(), entry: None, exit: None }
    }

    /// Number of nodes stored.
    pub fn node_count(&self) -> (r: usize)
        ensures
            r == self.nodes@.len(),
    {
        self.nodes.len()
    }

    /// Stores a new node without operands and returns its index.
    pub fn insert_node(&mut self, nt: NodeType) -> (r: NodeIndex)
        requires
            old(self).nodes@.len() < u32::MAX,
        ensures
            r.spec_index() == old(self).nodes@.len(),
            final(self).nodes@.len() == old(self).nodes@.len() + 1,
            final(self).nodes@.take(r.spec_index()) == old(self).nodes@,
            final(self).nodes@[r.spec_index()].data.nt == nt,
            final(self).nodes@[r.spec_index()].operands@.len() == 0,
            final(self).nodes@[r.spec_index()].registers is None,
            final(self).entry == old(self).entry,
            final(self).exit == old(self).exit,
    {
        let r = NodeIndex::new(self.nodes.len());
        self.nodes.push(SSANode { data: NodeData { nt: nt }, operands: Vec::new(), registers: None });
        assert(self.nodes@.take(r.spec_index()) =~= old(self).nodes@);
        r
    }

    /// Appends `operand` to the operands of `node`. Returns whether there is such a node;
    /// if not, nothing changes.
    pub fn op_use(&mut self, node: NodeIndex, operand: NodeIndex) -> (done: bool)
        ensures
            done == old(self).has_node(node),
            !done ==> *final(self) == *old(self),
            done ==> {
                &&& final(self).nodes@.len() == old(self).nodes@.len()
                &&& final(self).spec_operands_of(node) == old(self).spec_operands_of(node).push(
                    operand,
                )
                &&& final(self).spec_node_data(node) == old(self).spec_node_data(node)
                &&& final(self).spec_registers_in(node) == old(self).spec_registers_in(node)
                &&& forall|i: int|
                    0 <= i < old(self).nodes@.len() && i != node.spec_index()
                        ==> final(self).nodes@[i] == old(self).nodes@[i]
                &&& final(self).entry == old(self).entry
                &&& final(self).exit == old(self).exit
            },
    {
        let i = node.index();
        if i < self.nodes.len() {
            self.nodes[i].operands.push(operand);
            true
        } else {
            false
        }
    }

    /// Makes `regs` the register-state node of block `block`. Returns whether there is such a
    /// block; if not, nothing changes.
    pub fn set_registers(&mut self, block: NodeIndex, regs: NodeIndex) -> (done: bool)
        ensures
            done == old(self).has_node(block),
            !done ==> *final(self) == *old(self),
            done ==> {
                &&& final(self).nodes@.len() == old(self).nodes@.len()
                &&& final(self).spec_registers_in(block) == Some(regs)
                &&& final(self).spec_node_data(block) == old(self).spec_node_data(block)
                &&& final(self).spec_operands_of(block) == old(self).spec_operands_of(block)
                &&& forall|i: int|
                    0 <= i < old(self).nodes@.len() && i != block.spec_index()
                        ==> final(self).nodes@[i] == old(self).nodes@[i]
                &&& final(self).entry == old(self).entry
                &&& final(self).exit == old(self).exit
            },
    {
        let i = block.index();
        if i < self.nodes.len() {
            self.nodes[i].registers = Some(regs);
            true
        } else {
            false
        }
    }

    /// Marks `n` as the entry block.
    pub fn mark_entry_node(&mut self, n: NodeIndex)
        ensures
            final(self).entry == Some(n),
            final(self).nodes == old(self).nodes,
            final(self).exit == old(self).exit,
    {
        self.entry = Some(n);
    }

    /// Marks `n` as the exit block.
    pub fn mark_exit_node(&mut self, n: NodeIndex)
        ensures
            final(self).exit == Some(n),
            final(self).nodes == old(self).nodes,
            final(self).entry == old(self).entry,
    {
        self.exit = Some(n);
    }

    /// The entry block, if one is marked.
    pub fn entry_node(&self) -> (r: Option<NodeIndex>)
        ensures
            r == self.entry,
    {
        self.entry
    }

    /// The exit block, if one is marked.
    pub fn exit_node(&self) -> (r: Option<NodeIndex>)
        ensures
            r == self.exit,
    {
        self.exit
    }

    /// The register-state node of block `n`.
    pub fn registers_in(&self, n: NodeIndex) -> (r: Option<NodeIndex>)
        ensures
            r == self.spec_registers_in(n),
    {
        let i = n.index();
        if i < self.nodes.len() {
            self.nodes[i].registers
        } else {
            None
        }
    }

    /// The operands of node `n`, in order.
    pub fn operands_of(&self, n: NodeIndex) -> (r: Vec<NodeIndex>)
        ensures
            r@ == self.spec_operands_of(n),
    {
        let mut r: Vec<NodeIndex> = Vec::new();
        let i = n.index();
        if i < self.nodes.len() {
            let ops = &self.nodes[i].operands;
            let mut k: usize = 0;
            while k < ops.len()
                invariant
                    k <= ops@.len(),
                    r@ == ops@.take(k as int),
                decreases ops@.len() - k,
            {
                r.push(ops[k]);
                assert(r@ =~= ops@.take(k + 1));
                k = k + 1;
            }
            assert(ops@.take(k as int) =~= ops@);
        }
        r
    }

    /// The payload of node `n`.
    pub fn node_data(&self, n: NodeIndex) -> (r: Option<&NodeData>)
        ensures
            r == match self.spec_node_data(n) {
                Some(d) => Some(&d),
                None => None,
            },
    {
        let i = n.index();
        if i < self.nodes.len() {
            Some(&self.nodes[i].data)
        } else {
            None
        }
    }
}

impl Default for SSAStorage {
    fn default() -> (r: SSAStorage)
        ensures
            r.is_blank(),
    {
        SSAStorage::new()
    }
}

/// The engine that builds SSA forms. Nothing is assumed of what it returns.
pub trait SSAConstruct {
    /// Builds the SSA form of `rfn` from its instructions and the register profile.
    /// With `assume_cc`, the calling convention in the profile is taken to hold.
    fn construct(&self, rfn: &RadecoFunction, reg_p: &LRegInfo, assume_cc: bool) -> SSAStorage;

    /// For the call that `caller` makes to `callee` at address `csite`: the node of the call
    /// in the caller, and pairs of a node of the caller and the node of the callee that
    /// receives its value.
    fn call_context(&self, caller: &RadecoFunction, callee: &RadecoFunction, csite: u64) -> (
        NodeIndex,
        Vec<(NodeIndex, NodeIndex)>,
    );
}

} // verus!
