//! The container of one function.

use vstd::prelude::*;
use crate::bindings::VarBindings;
use crate::index::NodeIndex;
use crate::source::LOpInfo;
use crate::ssa::SSAStorage;

verus! {

/// Where a function is defined.
#[derive(Debug, Clone)]
pub enum FunctionType {
    /// Defined in the current binary.
    Function,
    /// Imported from another module, named by its number; `u16::MAX` while that module is
    /// not known.
    Import(u16),
}

/// One identified function: the basic unit of analysis within a function.
#[derive(Debug, Clone)]
pub struct RadecoFunction {
    /// Raw instructions of the function.
    pub instructions: Vec<LOpInfo>,
    /// Whether the function is known to be recursive.
    pub is_recursive: Option<bool>,
    /// Human-readable name.
    pub name: String,
    /// Start address.
    pub offset: u64,
    /// Size in bytes.
    pub size: u64,
    /// Data addresses that the function refers to.
    pub datarefs: Vec<u64>,
    /// The SSA form of the function.
    pub ssa: SSAStorage,
    /// The node of the function in the call graph of its module.
    pub cgid: NodeIndex,
    /// Variable bindings.
    pub bindings: VarBindings,
}

impl RadecoFunction {
    /// Name, start address and size are as given; everything else is as in a new function.
    pub open spec fn is_identified(&self, name: Seq<char>, offset: u64, size: u64) -> bool {
        &&& self.name@ == name
        &&& self.offset == offset
        &&& self.size == size
        &&& self.is_untouched()
    }

    /// Nothing but name, start address and size has been set.
    pub open spec fn is_untouched(&self) -> bool {
        &&& self.instructions@.len() == 0
        &&& self.is_recursive is None
        &&& self.datarefs@.len() == 0
        &&& self.ssa.is_blank()
        &&& self.cgid == NodeIndex(0)
        &&& self.bindings@.len() == 0
    }

    /// Of what a loader adds to an identified function, only the named parts may have been
    /// set: the instructions, the SSA form, the call-graph node, the data references, the
    /// bindings.
    pub open spec fn is_untouched_but(
        &self,
        instructions: bool,
        ssa: bool,
        cgid: bool,
        datarefs: bool,
        bindings: bool,
    ) -> bool {
        &&& self.is_recursive is None
        &&& !instructions ==> self.instructions@.len() == 0
        &&& !ssa ==> self.ssa.is_blank()
        &&& !cgid ==> self.cgid == NodeIndex(0)
        &&& !datarefs ==> self.datarefs@.len() == 0
        &&& !bindings ==> self.bindings@.len() == 0
    }

    /// A function with an empty name at address 0, of size 0, with nothing else set.
    pub fn new() -> (r: RadecoFunction)
        ensures
            r.is_identified(Seq::empty(), 0, 0),
    {
        RadecoFunction {
            instructions: Vec::new(),
            is_recursive: None,
            name: String::new(),
            offset: 0,
            size: 0,
            datarefs: Vec::new(),
            ssa: SSAStorage::new(),
            cgid: NodeIndex(0),
            bindings: VarBindings(Vec::new()),
        }
    }

    /// A function with the given name, start address and size, and nothing else set.
    pub fn identified(name: String, offset: u64, size: u64) -> (r: RadecoFunction)
        ensures
            r.is_identified(name@, offset, size),
    {
        let mut r = RadecoFunction::new();
        r.name = name;
        r.offset = offset;
        r.size = size;
        r
    }

    /// The raw instructions.
    pub fn instructions(&self) -> (r: &[LOpInfo])
        ensures
            r@ == self.instructions@,
    {
        self.instructions.as_slice()
    }

    /// The SSA form.
    pub fn ssa(&self) -> (r: &SSAStorage)
        ensures
            *r == self.ssa,
    {
        &self.ssa
    }

    /// The SSA form, to be changed in place.
    pub fn ssa_mut(&mut self) -> (r: &mut SSAStorage)
        ensures
            *r == old(self).ssa,
            *final(self) == (RadecoFunction { ssa: *final(r), ..*old(self) }),
    {
        &mut self.ssa
    }

    /// The node of this function in the call graph.
    pub fn cgid(&self) -> (r: NodeIndex)
        ensures
            r == self.cgid,
    {
        self.cgid
    }

    /// The variable bindings.
    pub fn bindings(&self) -> (r: &VarBindings)
        ensures
            *r == self.bindings,
    {
        &self.bindings
    }
}

impl Default for RadecoFunction {
    fn default() -> (r: RadecoFunction)
        ensures
            r.is_identified(Seq::empty(), 0, 0),
    {
        RadecoFunction::new()
    }
}

} // verus!
