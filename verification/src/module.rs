//! The container of one loaded binary or library.

use vstd::prelude::*;
use std::collections::BTreeMap;
use std::collections::HashMap;
use std::sync::Arc;
use crate::callgraph::CallGraph;
use crate::function::RadecoFunction;
use crate::index::NodeIndex;
use crate::keys::btree_keys;
use crate::imports::{holds_stubs, import_stubs, imported, ImportInfo};
use crate::source::{
    LEntryInfo, LExportInfo, LImportInfo, LRelocInfo, LSectionInfo, LSymbolInfo, Source, SourceRef,
};

verus! {

/// Everything known about one binary: what its loader found, its functions by start address,
/// its imports by the address of their entry in the procedure linkage table, and its call
/// graph.
pub struct RadecoModule<'a> {
    /// Human-readable name of the module.
    pub name: String,
    /// Path of the module on disk.
    pub path: String,
    /// Symbol table.
    pub symbols: Vec<LSymbolInfo>,
    /// Sections, shared with whoever asks for them.
    pub sections: Arc<Vec<LSectionInfo>>,
    /// Imports, by the address of their entry in the procedure linkage table.
    pub imports: HashMap<u64, ImportInfo>,
    /// Exported symbols.
    pub exports: Vec<LExportInfo>,
    /// Relocations.
    pub relocs: Vec<LRelocInfo>,
    /// Names of the libraries that the module needs.
    pub libs: Vec<String>,
    /// Entry points.
    pub entrypoint: Vec<LEntryInfo>,
    /// Call graph of the module.
    pub callgraph: CallGraph,
    /// Functions, by start address.
    pub functions: BTreeMap<u64, RadecoFunction>,
    /// The backend that the module was loaded from.
    pub source: Option<SourceRef<'a>>,
}

impl<'a> RadecoModule<'a> {
    /// Every function is filed under its start address.
    pub open spec fn functions_keyed(&self) -> bool {
        forall|k: u64| #[trigger]
            self.functions@.contains_key(k) ==> self.functions@[k].offset == k
    }

    /// Every import is filed under the address of its entry in the procedure linkage table.
    pub open spec fn imports_keyed(&self) -> bool {
        forall|k: u64| #[trigger] self.imports@.contains_key(k) ==> self.imports@[k].plt == k
    }

    /// Is `addr` the address of a function or of an import of this module?
    pub open spec fn knows(&self, addr: u64) -> bool {
        self.functions@.contains_key(addr) || self.imports@.contains_key(addr)
    }

    /// The call-graph node recorded for the function or import at `addr`; a function goes
    /// before an import at the same address.
    pub open spec fn cgid_at(&self, addr: u64) -> NodeIndex
        recommends
            self.knows(addr),
    {
        if self.functions@.contains_key(addr) {
            self.functions@[addr].cgid
        } else {
            self.imports@[addr].rfn.cgid
        }
    }

    /// Every node of the call graph is labelled with the address of a function or import of
    /// this module, and that function or import records the node as its own.
    pub open spec fn graph_wired(&self) -> bool {
        forall|n: int|
            0 <= n < self.callgraph@.nodes.len() ==> {
                &&& self.knows(#[trigger] self.callgraph@.nodes[n])
                &&& self.cgid_at(self.callgraph@.nodes[n]).spec_index() == n
            }
    }

    /// What holds of every module that a loader returns.
    pub open spec fn wf(&self) -> bool {
        &&& self.functions_keyed()
        &&& self.imports_keyed()
        &&& self.graph_wired()
    }

    /// Nothing has been loaded into the module.
    pub open spec fn is_blank(&self) -> bool {
        &&& self.path@.len() == 0
        &&& self.symbols@.len() == 0
        &&& self.sections@.len() == 0
        &&& self.imports@ == Map::<u64, ImportInfo>::empty()
        &&& self.exports@.len() == 0
        &&& self.relocs@.len() == 0
        &&& self.libs@.len() == 0
        &&& self.entrypoint@.len() == 0
        &&& self.callgraph@.nodes.len() == 0
        &&& self.callgraph@.edges.len() == 0
        &&& self.functions@ == Map::<u64, RadecoFunction>::empty()
        &&& self.source is None
    }

    /// A module called `path` into which nothing has been loaded.
    pub fn new(path: String) -> (r: RadecoModule<'a>)
        ensures
            r.name@ == path@,
            r.is_blank(),
            r.wf(),
    {
        let mut rmod = RadecoModule::default();
        rmod.name = path;
        rmod
    }

    /// The function that starts at `offset`, if there is one.
    pub fn function(&self, offset: u64) -> (r: Option<&RadecoFunction>)
        ensures
            match r {
                Some(f) => self.functions@.contains_key(offset) && *f == self.functions@[offset],
                None => !self.functions@.contains_key(offset),
            },
    {
        self.functions.get(&offset)
    }

    /// The import whose entry in the procedure linkage table is at `plt`, if there is one.
    pub fn import(&self, plt: u64) -> (r: Option<&ImportInfo>)
        ensures
            match r {
                Some(i) => self.imports@.contains_key(plt) && *i == self.imports@[plt],
                None => !self.imports@.contains_key(plt),
            },
    {
        self.imports.get(&plt)
    }

    /// The sections of the module.
    pub fn sections(&self) -> (r: &Arc<Vec<LSectionInfo>>)
        ensures
            *r == self.sections,
    {
        &self.sections
    }

    /// The call graph of the module.
    pub fn callgraph(&self) -> (r: &CallGraph)
        ensures
            *r == self.callgraph,
    {
        &self.callgraph
    }
}

/// What a backend answered when asked about a module. A part is `None` where the backend
/// gave no answer.
pub struct Metadata {
    pub symbols: Option<Vec<LSymbolInfo>>,
    pub sections: Option<Vec<LSectionInfo>>,
    pub imports: Option<Vec<LImportInfo>>,
    pub exports: Option<Vec<LExportInfo>>,
    pub relocs: Option<Vec<LRelocInfo>>,
    pub libraries: Option<Vec<String>>,
    pub entrypoint: Option<Vec<LEntryInfo>>,
}

impl Metadata {
    /// Asks `source` about the module, one part after the other.
    pub fn fetch(source: &dyn Source) -> Metadata {
        let symbols = match source.symbols() {
            Ok(v) => Some(v),
            Err(_) => None,
        };
        let sections = match source.sections() {
            Ok(v) => Some(v),
            Err(_) => None,
        };
        let imports = match source.imports() {
            Ok(v) => Some(v),
            Err(_) => None,
        };
        let exports = match source.exports() {
            Ok(v) => Some(v),
            Err(_) => None,
        };
        let relocs = match source.relocs() {
            Ok(v) => Some(v),
            Err(_) => None,
        };
        let libraries = match source.libraries() {
            Ok(v) => Some(v),
            Err(_) => None,
        };
        let entrypoint = match source.entrypoint() {
            Ok(v) => Some(v),
            Err(_) => None,
        };
        Metadata {
            symbols: symbols,
            sections: sections,
            imports: imports,
            exports: exports,
            relocs: relocs,
            libraries: libraries,
            entrypoint: entrypoint,
        }
    }
}

/// The elements of an answer; none where there was no answer.
pub open spec fn answered<T>(answer: Option<Vec<T>>) -> Seq<T> {
    match answer {
        Some(v) => v@,
        None => Seq::empty(),
    }
}

impl<'a> RadecoModule<'a> {
    /// The module holds what the backend answered, with a stub for each import, and nothing
    /// else: no name, no function, no call graph, no backend.
    pub open spec fn is_seeded_from(&self, meta: Metadata) -> bool {
        &&& self.name@.len() == 0
        &&& self.path@.len() == 0
        &&& self.symbols@ == answered(meta.symbols)
        &&& self.sections@ == answered(meta.sections)
        &&& holds_stubs(self.imports@, imported(answered(meta.imports)))
        &&& self.exports@ == answered(meta.exports)
        &&& self.relocs@ == answered(meta.relocs)
        &&& self.libs@ == answered(meta.libraries)
        &&& self.entrypoint@ == answered(meta.entrypoint)
        &&& self.callgraph@.nodes.len() == 0
        &&& self.callgraph@.edges.len() == 0
        &&& self.functions@ == Map::<u64, RadecoFunction>::empty()
        &&& self.source is None
    }

    /// A module with what the backend answered. What it did not answer stays empty. An
    /// import whose entry in the procedure linkage table is known gets a stub that bears its
    /// name.
    pub fn from_metadata(meta: Metadata) -> (r: RadecoModule<'a>)
        ensures
            r.is_seeded_from(meta),
            r.wf(),
    {
        let mut rmod = RadecoModule::default();
        match meta.symbols {
            Some(sym_info) => {
                rmod.symbols = sym_info;
            },
            None => {},
        }
        match meta.sections {
            Some(section_info) => {
                rmod.sections = Arc::new(section_info);
            },
            None => {},
        }
        match meta.imports {
            Some(import_info) => {
                rmod.imports = import_stubs(&import_info);
            },
            None => {
                assert(rmod.imports@.dom() =~= imported(Seq::<LImportInfo>::empty()).dom());
            },
        }
        match meta.exports {
            Some(exports) => {
                rmod.exports = exports;
            },
            None => {},
        }
        match meta.relocs {
            Some(relocs) => {
                rmod.relocs = relocs;
            },
            None => {},
        }
        match meta.libraries {
            Some(libs) => {
                rmod.libs = libs;
            },
            None => {},
        }
        match meta.entrypoint {
            Some(ep) => {
                rmod.entrypoint = ep;
            },
            None => {},
        }
        proof {
            assert(rmod.symbols@ =~= answered(meta.symbols));
            assert(rmod.sections@ =~= answered(meta.sections));
            assert(rmod.exports@ =~= answered(meta.exports));
            assert(rmod.relocs@ =~= answered(meta.relocs));
            assert(rmod.libs@ =~= answered(meta.libraries));
            assert(rmod.entrypoint@ =~= answered(meta.entrypoint));
        }
        rmod
    }
}

impl<'a> Default for RadecoModule<'a> {
    fn default() -> (r: RadecoModule<'a>)
        ensures
            r.name@.len() == 0,
            r.is_blank(),
            r.wf(),
    {
        RadecoModule {
            name: String::new(),
            path: String::new(),
            symbols: Vec::new(),
            sections: Arc::new(Vec::new()),
            imports: HashMap::new(),
            exports: Vec::new(),
            relocs: Vec::new(),
            libs: Vec::new(),
            entrypoint: Vec::new(),
            callgraph: CallGraph::new(),
            functions: BTreeMap::new(),
            source: None,
        }
    }
}

/// `BTreeMap::get_mut`: the value under `k`, to be changed in place, or `None` if there is
/// none. Changing it changes the map at `k` and nowhere else.
#[verifier::external_body]
fn btree_get_mut(m: &mut BTreeMap<u64, RadecoFunction>, k: u64) -> (r: Option<&mut RadecoFunction>)
    ensures
        match r {
            Some(f) => {
                &&& old(m)@.contains_key(k)
                &&& *f == old(m)@[k]
                &&& final(m)@ == old(m)@.insert(k, *final(f))
            },
            None => !old(m)@.contains_key(k) && final(m)@ == old(m)@,
        },
{
    m.get_mut(&k)
}

impl<'a> RadecoModule<'a> {
    /// The function that starts at `offset`, to be changed in place. The module stays as it
    /// is but for that function.
    pub fn function_mut(&mut self, offset: u64) -> (r: Option<&mut RadecoFunction>)
        ensures
            match r {
                Some(f) => {
                    &&& old(self).functions@.contains_key(offset)
                    &&& *f == old(self).functions@[offset]
                    &&& final(self).functions@ == old(self).functions@.insert(offset, *final(f))
                },
                None => !old(self).functions@.contains_key(offset) && final(self).functions@
                    == old(self).functions@,
            },
            *final(self) == (RadecoModule { functions: final(self).functions, ..*old(self) }),
    {
        btree_get_mut(&mut self.functions, offset)
    }

    /// A cursor at the function with the lowest start address.
    pub fn iter<'f>(&'f self) -> (r: FunctionIter<'f, 'a>)
        ensures
            r.parent() == self,
            r.remaining().to_set() == self.functions@.dom(),
            r.remaining().no_duplicates(),
            forall|i: int, j: int|
                0 <= i < j < r.remaining().len() ==> r.remaining()[i] < r.remaining()[j],
    {
        let keys = btree_keys(&self.functions);
        proof {
            assert(keys@.skip(0) =~= keys@);
            assert forall|i: int| 0 <= i < keys@.len() implies self.functions@.contains_key(
                #[trigger] keys@[i],
            ) by {
                assert(keys@.to_set().contains(keys@[i]));
            }
        }
        FunctionIter { module: self, keys: keys, pos: 0 }
    }

    /// Every function and every import of the module has a node in the call graph, and no
    /// import lies at the address of a function.
    pub open spec fn all_in_graph(&self) -> bool {
        &&& forall|k: u64| #[trigger]
            self.functions@.contains_key(k) ==> self.callgraph@.nodes.contains(k)
        &&& forall|k: u64| #[trigger]
            self.imports@.contains_key(k) ==> self.callgraph@.nodes.contains(k)
                && !self.functions@.contains_key(k)
    }

    /// In a well-formed module in which every function and import has a node, each node `n`
    /// is recorded with exactly one function or import: the one at the address that labels
    /// the node.
    pub proof fn lemma_one_entry_per_node(&self, n: int)
        requires
            self.wf(),
            self.all_in_graph(),
            0 <= n < self.callgraph@.nodes.len(),
        ensures
            self.knows(self.callgraph@.nodes[n]),
            self.cgid_at(self.callgraph@.nodes[n]).spec_index() == n,
            !(self.functions@.contains_key(self.callgraph@.nodes[n])
                && self.imports@.contains_key(self.callgraph@.nodes[n])),
            forall|k: u64| #[trigger]
                self.functions@.contains_key(k) && self.functions@[k].cgid.spec_index() == n ==> k
                    == self.callgraph@.nodes[n],
            forall|k: u64| #[trigger]
                self.imports@.contains_key(k) && self.imports@[k].rfn.cgid.spec_index() == n ==> k
                    == self.callgraph@.nodes[n],
    {
        let nodes = self.callgraph@.nodes;
        assert(self.knows(nodes[n]));
        assert forall|k: u64| #[trigger]
            self.functions@.contains_key(k) && self.functions@[k].cgid.spec_index()
                == n implies k == nodes[n] by {
            let j = nodes.index_of(k);
            assert(nodes.contains(k));
            assert(self.knows(nodes[j]));
        }
        assert forall|k: u64| #[trigger]
            self.imports@.contains_key(k) && self.imports@[k].rfn.cgid.spec_index()
                == n implies k == nodes[n] by {
            let j = nodes.index_of(k);
            assert(nodes.contains(k));
            assert(self.knows(nodes[j]));
        }
    }
}

/// A function together with the module that it belongs to.
pub struct ZippedFunction<'f, 'a> {
    pub module: &'f RadecoModule<'a>,
    /// The start address of the function, and the function.
    pub function: (u64, &'f RadecoFunction),
}

/// A cursor over the functions of a module, in the order of their start addresses.
pub struct FunctionIter<'f, 'a> {
    module: &'f RadecoModule<'a>,
    keys: Vec<u64>,
    pos: usize,
}

impl<'f, 'a> FunctionIter<'f, 'a> {
    #[verifier::type_invariant]
    closed spec fn inv(&self) -> bool {
        &&& self.pos <= self.keys@.len()
        &&& forall|i: int|
            0 <= i < self.keys@.len() ==> self.module.functions@.contains_key(
                #[trigger] self.keys@[i],
            )
    }

    /// The module whose functions the cursor goes through.
    pub closed spec fn parent(&self) -> &'f RadecoModule<'a> {
        self.module
    }

    /// The start addresses of the functions still to come, in order.
    pub closed spec fn remaining(&self) -> Seq<u64> {
        self.keys@.skip(self.pos as int)
    }

    /// The function under the cursor, which then moves on; `None` once all have been given.
    pub fn next(&mut self) -> (r: Option<ZippedFunction<'f, 'a>>)
        ensures
            final(self).parent() == old(self).parent(),
            match r {
                Some(z) => {
                    &&& old(self).remaining().len() > 0
                    &&& final(self).remaining() == old(self).remaining().skip(1)
                    &&& z.module == old(self).parent()
                    &&& z.function.0 == old(self).remaining()[0]
                    &&& old(self).parent().functions@.contains_key(z.function.0)
                    &&& *z.function.1 == old(self).parent().functions@[z.function.0]
                },
                None => {
                    &&& old(self).remaining().len() == 0
                    &&& final(self).remaining() == old(self).remaining()
                },
            },
    {
        proof {
            use_type_invariant(&*self);
        }
        if self.pos < self.keys.len() {
            let k = self.keys[self.pos];
            match self.module.functions.get(&k) {
                Some(rfn) => {
                    assert(self.keys@.skip(self.pos as int).skip(1) =~= self.keys@.skip(
                        self.pos + 1,
                    ));
                    self.pos = self.pos + 1;
                    Some(ZippedFunction { module: self.module, function: (k, rfn) })
                },
                None => {
                    assert(false);
                    None
                },
            }
        } else {
            None
        }
    }
}

/// A function and its start address, the function to be changed in place. The module that
/// it belongs to is borrowed meanwhile and cannot be had with it.
pub struct ZippedFunctionMut<'f> {
    /// The start address of the function, and the function.
    pub function: (u64, &'f mut RadecoFunction),
}

/// A cursor over the functions of a module, in the order of their start addresses, that
/// hands them out to be changed in place.
pub struct FunctionIterMut<'f, 'a> {
    /// The module whose functions the cursor goes through.
    pub module: &'f mut RadecoModule<'a>,
    /// The start addresses that the cursor goes through.
    pub keys: Vec<u64>,
    /// How many of them it has passed.
    pub pos: usize,
}

impl<'f, 'a> FunctionIterMut<'f, 'a> {
    /// The start addresses still to come, in order.
    pub open spec fn remaining(&self) -> Seq<u64> {
        if self.pos <= self.keys@.len() {
            self.keys@.skip(self.pos as int)
        } else {
            Seq::empty()
        }
    }

    /// The function under the cursor, which then moves on; `None` once all addresses have
    /// been taken, and for an address at which the module has no function. The module stays
    /// as it is but for the function handed out.
    pub fn next<'s>(&'s mut self) -> (r: Option<ZippedFunctionMut<'s>>)
        ensures
            final(self).remaining() == if old(self).remaining().len() > 0 {
                old(self).remaining().skip(1)
            } else {
                old(self).remaining()
            },
            *final(self).module == (RadecoModule {
                functions: final(self).module.functions,
                ..*old(self).module
            }),
            match r {
                Some(z) => {
                    &&& old(self).remaining().len() > 0
                    &&& z.function.0 == old(self).remaining()[0]
                    &&& old(self).module.functions@.contains_key(z.function.0)
                    &&& *z.function.1 == old(self).module.functions@[z.function.0]
                    &&& final(self).module.functions@ == old(self).module.functions@.insert(
                        z.function.0,
                        *final(z.function.1),
                    )
                },
                None => {
                    &&& old(self).remaining().len() > 0 ==> !old(
                        self,
                    ).module.functions@.contains_key(old(self).remaining()[0])
                    &&& final(self).module.functions@ == old(self).module.functions@
                },
            },
    {
        let i = self.pos;
        if i < self.keys.len() {
            let k = self.keys[i];
            assert(self.keys@.skip(i as int).skip(1) =~= self.keys@.skip(i + 1));
            self.pos = i + 1;
            match btree_get_mut(&mut self.module.functions, k) {
                Some(rfn) => Some(ZippedFunctionMut { function: (k, rfn) }),
                None => None,
            }
        } else {
            None
        }
    }
}

impl<'a> RadecoModule<'a> {
    /// A cursor at the function with the lowest start address that hands the functions out to
    /// be changed in place.
    pub fn iter_mut<'f>(&'f mut self) -> (r: FunctionIterMut<'f, 'a>)
        ensures
            *r.module == *old(self),
            r.remaining().to_set() == old(self).functions@.dom(),
            r.remaining().no_duplicates(),
            forall|i: int, j: int|
                0 <= i < j < r.remaining().len() ==> r.remaining()[i] < r.remaining()[j],
            *final(self) == *final(r.module),
    {
        let keys = btree_keys(&self.functions);
        assert(keys@.skip(0) =~= keys@);
        FunctionIterMut { module: self, keys: keys, pos: 0 }
    }
}

} // verus!
