//! Loading one module: what the backend reports is gathered, functions are identified and
//! disassembled, and, as far as the loader is asked to, their SSA forms, the call graph and
//! the variable bindings are built.

use vstd::prelude::*;
use crate::bindings::{
    arguments_lead, arrange_bindings, emit_bindings, inferred, lemma_arranged_leads,
    lemma_inferred_leads, views, VarBindings,
};
use crate::callgraph::CallEdge;
use crate::floader::{reads_symbols, FunctionLoader, Strategy};
use crate::index::NodeIndex;
use crate::loader_defaults::identified_by_symbols;
use crate::function::RadecoFunction;
use crate::imports::ImportInfo;
use crate::llanalyzer::{call_graph_of, graph_sound, init_call_ctx, load_call_graph};
use crate::module::{Metadata, RadecoModule};
use crate::passes::{
    assign_cgids, cgid_after, construct_import_ssa, construct_ssa, copy_datarefs,
    datarefs_after, disassemble, init_bindings, init_import_bindings, retain_functions,
};
use crate::regfile::{profile_view, SubRegisterFile};
use crate::source::{FunctionInfo, LRegInfo, SourceRef};
use crate::ssa::{SSAConstruct, SSAStorage};

verus! {

/// Why a loader gave up.
#[derive(Clone, Copy, Debug, PartialEq, Eq, Structural)]
pub enum LoadError {
    /// No backend was given to load from.
    NoSource,
    /// The backend did not give the register profile.
    NoRegisterProfile,
    /// Local variables were asked for; loading them is not provided.
    LocalsNotSupported,
    /// Bindings were asked for, and the SSA form of a function lacks the register state of
    /// its entry or of its exit.
    NoRegisterState,
}

/// Decides which of the identified functions a module keeps.
pub trait FunctionFilter {
    /// Whether `rfn` is to be kept.
    fn keep(&self, rfn: &RadecoFunction) -> bool;
}

/// Loads one module, as configured.
pub struct ModuleLoader<'a> {
    /// The backend to load from; if there is none, the one given to `load` is used.
    pub source: Option<SourceRef<'a>>,
    /// The function loader; if there is none, one with the two strategies that are always at
    /// hand is used.
    pub floader: Option<FunctionLoader<'a>>,
    /// Which of the identified functions are kept; all, if there is no filter.
    pub filter: Option<&'a dyn FunctionFilter>,
    /// Build the call graph.
    pub build_callgraph: bool,
    /// Build the SSA form of every function.
    pub build_ssa: bool,
    /// Load the data references of every function.
    pub load_datarefs: bool,
    /// Load the local variables of every function. Not provided: loading then fails.
    pub load_locals: bool,
    /// Build the SSA forms in parallel, where the caller can.
    pub parallel: bool,
    /// Take the calling convention in the register profile to hold.
    pub assume_cc: bool,
    /// Build the SSA form of the stub of every import.
    pub stub_imports: bool,
}

impl<'a> Default for ModuleLoader<'a> {
    fn default() -> (r: ModuleLoader<'a>)
        ensures
            r.source is None,
            r.floader is None,
            r.filter is None,
            !r.build_callgraph,
            !r.build_ssa,
            !r.load_datarefs,
            !r.load_locals,
            !r.parallel,
            !r.assume_cc,
            !r.stub_imports,
    {
        ModuleLoader {
            source: None,
            floader: None,
            filter: None,
            build_callgraph: false,
            build_ssa: false,
            load_datarefs: false,
            load_locals: false,
            parallel: false,
            assume_cc: false,
            stub_imports: false,
        }
    }
}

impl<'a> ModuleLoader<'a> {
    /// Sets the backend to load from.
    pub fn source(self, src: SourceRef<'a>) -> (r: ModuleLoader<'a>)
        ensures
            r == (ModuleLoader { source: Some(src), ..self }),
    {
        let mut this = self;
        this.source = Some(src);
        this
    }

    /// Asks for the call graph.
    pub fn build_callgraph(self) -> (r: ModuleLoader<'a>)
        ensures
            r == (ModuleLoader { build_callgraph: true, ..self }),
    {
        let mut this = self;
        this.build_callgraph = true;
        this
    }

    /// Asks for the SSA form of every function.
    pub fn build_ssa(self) -> (r: ModuleLoader<'a>)
        ensures
            r == (ModuleLoader { build_ssa: true, ..self }),
    {
        let mut this = self;
        this.build_ssa = true;
        this
    }

    /// Asks for the data references of every function.
    pub fn load_datarefs(self) -> (r: ModuleLoader<'a>)
        ensures
            r == (ModuleLoader { load_datarefs: true, ..self }),
    {
        let mut this = self;
        this.load_datarefs = true;
        this
    }

    /// Asks for the local variables of every function.
    pub fn load_locals(self) -> (r: ModuleLoader<'a>)
        ensures
            r == (ModuleLoader { load_locals: true, ..self }),
    {
        let mut this = self;
        this.load_locals = true;
        this
    }

    /// Asks for the SSA forms to be built in parallel.
    pub fn parallel(self) -> (r: ModuleLoader<'a>)
        ensures
            r == (ModuleLoader { parallel: true, ..self }),
    {
        let mut this = self;
        this.parallel = true;
        this
    }

    /// Takes the calling convention in the register profile to hold. Bindings of arguments
    /// and return values are then set up.
    pub fn assume_cc(self) -> (r: ModuleLoader<'a>)
        ensures
            r == (ModuleLoader { assume_cc: true, ..self }),
    {
        let mut this = self;
        this.assume_cc = true;
        this
    }

    /// Asks for the SSA form of the stub of every import.
    pub fn stub_imports(self) -> (r: ModuleLoader<'a>)
        ensures
            r == (ModuleLoader { stub_imports: true, ..self }),
    {
        let mut this = self;
        this.stub_imports = true;
        this
    }

    /// Sets the function loader.
    pub fn function_loader(self, f: FunctionLoader<'a>) -> (r: ModuleLoader<'a>)
        ensures
            r == (ModuleLoader { floader: Some(f), ..self }),
    {
        let mut this = self;
        this.floader = Some(f);
        this
    }

    /// Sets the filter that decides which of the identified functions are kept.
    pub fn filter(self, f: &'a dyn FunctionFilter) -> (r: ModuleLoader<'a>)
        ensures
            r == (ModuleLoader { filter: Some(f), ..self }),
    {
        let mut this = self;
        this.filter = Some(f);
        this
    }

    /// Sets the bindings of `rfn` from the register states at its entry and at its exit: for
    /// each role `A0` to `A5` in the alias table an argument, found among the registers at
    /// the entry, and for each role `SN` a return value, found among those at the exit. The
    /// arguments come first, ordered by position. These are the arguments that the function
    /// may have; whether it uses them is not asked.
    pub fn init_fn_bindings(rfn: &mut RadecoFunction, sub_reg_f: &SubRegisterFile)
        requires
            old(rfn).ssa.has_register_states(),
        ensures
            *final(rfn) == (RadecoFunction { bindings: final(rfn).bindings, ..*old(rfn) }),
            final(rfn).bindings@ == inferred(&old(rfn).ssa, sub_reg_f@),
            arguments_lead(final(rfn).bindings@),
    {
        let entry_state = match rfn.ssa.entry_node() {
            Some(entry) => match rfn.ssa.registers_in(entry) {
                Some(regs) => rfn.ssa.operands_of(regs),
                None => Vec::new(),
            },
            None => Vec::new(),
        };
        let exit_state = match rfn.ssa.exit_node() {
            Some(exit) => match rfn.ssa.registers_in(exit) {
                Some(regs) => rfn.ssa.operands_of(regs),
                None => Vec::new(),
            },
            None => Vec::new(),
        };
        let tbindings = emit_bindings(&rfn.ssa, sub_reg_f, &entry_state, &exit_state);
        let sorted = arrange_bindings(&tbindings);
        proof {
            lemma_arranged_leads(views(tbindings@));
        }
        rfn.bindings = VarBindings(sorted);
    }

    /// The backend that the loader loads from, given the one handed to `load`: its own, if it
    /// has one.
    pub open spec fn chosen_source(&self, src: SourceRef<'a>) -> SourceRef<'a> {
        match self.source {
            Some(own) => own,
            None => src,
        }
    }

    /// The function loader is set and has the backend `source`; the rest of the loader is as
    /// in `before`. A function loader that `before` had has kept its strategies; a new one
    /// has the two that are always at hand.
    pub open spec fn is_prepared(&self, before: &ModuleLoader<'a>, source: SourceRef<'a>) -> bool {
        &&& *self == (ModuleLoader { floader: self.floader, ..*before })
        &&& self.floader is Some
        &&& self.floader.unwrap().source == Some(source)
        &&& self.floader.unwrap().strategies@ == match before.floader {
            Some(f) => f.strategies@,
            None => seq![Strategy::UseSymbols, Strategy::UseSource],
        }
    }

    /// The first part of loading: asks the backend for what it knows of the module,
    /// identifies the functions, keeps those that the filter lets through, fetches their
    /// instructions, and fetches the register profile. What the backend does not answer
    /// stays empty, except for the register profile, without which loading fails.
    pub fn load_metadata(&mut self, src: SourceRef<'a>) -> (r: Result<
        (RadecoModule<'a>, LRegInfo),
        LoadError,
    >)
        ensures
            final(self).is_prepared(old(self), old(self).chosen_source(src)),
            match r {
                Ok((rmod, _)) => {
                    &&& rmod.functions_keyed()
                    &&& forall|k: u64| #[trigger]
                        rmod.functions@.contains_key(k) ==> rmod.functions@[k].is_untouched_but(
                            true,
                            false,
                            false,
                            false,
                            false,
                        )
                    &&& forall|k: u64| #[trigger]
                        rmod.imports@.contains_key(k) ==> rmod.imports@[k].is_stub(
                            k,
                            rmod.imports@[k].name@,
                        )
                    &&& rmod.callgraph@.nodes.len() == 0
                    &&& rmod.callgraph@.edges.len() == 0
                    &&& rmod.source is None
                    &&& old(self).keeps_symbols() ==> identified_by_symbols(
                        rmod.symbols@,
                    ).functions.dom().subset_of(rmod.functions@.dom())
                },
                Err(e) => e == LoadError::NoRegisterProfile,
            },
    {
        let source = match self.source {
            Some(own) => own,
            None => src,
        };
        let mut taken: Option<FunctionLoader<'a>> = None;
        std::mem::swap(&mut taken, &mut self.floader);
        let mut floader = match taken {
            Some(f) => f,
            None => FunctionLoader::default().include_defaults(),
        };
        floader.source = Some(source);
        assert(floader.strategies@ == match old(self).floader {
            Some(f) => f.strategies@,
            None => seq![Strategy::UseSymbols, Strategy::UseSource],
        }) by {
            if old(self).floader is None {
                assert(Seq::<Strategy<'a>>::empty().push(Strategy::UseSymbols).push(
                    Strategy::UseSource,
                ) =~= seq![Strategy::UseSymbols, Strategy::UseSource]);
            }
        }
        proof {
            if old(self).floader is None {
                assert(floader.strategies@[0] is UseSymbols);
            }
        }

        let mut rmod = RadecoModule::from_metadata(Metadata::fetch(source.backend));

        let flresult = floader.load(&rmod);
        self.floader = Some(floader);
        let identified = flresult.into_functions();
        let kept = match self.filter {
            Some(filter_fn) => retain_functions(identified, filter_fn),
            None => identified,
        };
        assert forall|k: u64| #[trigger] kept@.contains_key(k) implies kept@[k].offset == k
            && kept@[k].is_untouched() by {
            assert(identified@.contains_key(k));
            assert(kept@[k] == identified@[k]);
        }
        rmod.functions = kept;
        disassemble(&mut rmod.functions, source.backend);
        assert forall|k: u64| #[trigger] rmod.functions@.contains_key(k) implies rmod.functions@[k].offset
            == k && rmod.functions@[k].is_untouched_but(true, false, false, false, false) by {
            assert(kept@.contains_key(k));
        }

        match source.backend.register_profile() {
            Ok(reg_p) => Ok((rmod, reg_p)),
            Err(_) => Err(LoadError::NoRegisterProfile),
        }
    }

    /// What the second part of loading makes of the function `start` at address `addr`, as
    /// far as the nodes of the call graph and the register profile decide it: the node
    /// recorded with it, and its bindings. The data references are as they were unless the
    /// loader was asked for them. `shadowed` says that the function is the stub of an import
    /// at the address of a function of the module, which is then not recorded with any node.
    pub open spec fn has_analyzed(
        &self,
        start: RadecoFunction,
        cur: RadecoFunction,
        addr: u64,
        shadowed: bool,
        nodes: Seq<u64>,
        reg_p: LRegInfo,
    ) -> bool {
        &&& cur == (RadecoFunction {
            cgid: if self.build_callgraph && !shadowed {
                cgid_after(nodes, addr, start.cgid)
            } else {
                start.cgid
            },
            datarefs: cur.datarefs,
            bindings: cur.bindings,
            ..start
        })
        &&& !self.load_datarefs ==> cur.datarefs == start.datarefs
        &&& if self.build_callgraph && self.assume_cc {
            &&& start.ssa.has_register_states()
            &&& cur.bindings@ == inferred(&start.ssa, profile_view(reg_p))
            &&& arguments_lead(cur.bindings@)
        } else {
            cur.bindings == start.bindings
        }
    }

    /// Do the calls `cur` join the same nodes at the same addresses as the calls `start`?
    pub open spec fn same_calls(start: Seq<CallEdge>, cur: Seq<CallEdge>) -> bool {
        &&& cur.len() == start.len()
        &&& forall|e: int|
            0 <= e < start.len() ==> {
                &&& (#[trigger] cur[e]).0 == start[e].0
                &&& cur[e].1 == start[e].1
                &&& cur[e].2.csite == start[e].2.csite
            }
    }

    /// What the second part of loading makes of the function `start` at address `addr`, given
    /// the nodes of the call graph, the backend's function list and the register profile.
    /// `shadowed` says that the function is the stub of an import at the address of a
    /// function of the module, which is then not recorded with any node.
    pub open spec fn is_analysis_of(
        &self,
        start: RadecoFunction,
        cur: RadecoFunction,
        addr: u64,
        shadowed: bool,
        import: bool,
        nodes: Seq<u64>,
        aux: Seq<FunctionInfo>,
        reg_p: LRegInfo,
    ) -> bool {
        &&& cur == (RadecoFunction {
            cgid: if self.build_callgraph && !shadowed {
                cgid_after(nodes, addr, start.cgid)
            } else {
                start.cgid
            },
            datarefs: cur.datarefs,
            bindings: cur.bindings,
            ..start
        })
        &&& if self.load_datarefs && !import {
            cur.datarefs@ == datarefs_after(aux, addr, start.datarefs@)
        } else {
            cur.datarefs == start.datarefs
        }
        &&& if self.build_callgraph && self.assume_cc {
            cur.bindings@ == inferred(&start.ssa, profile_view(reg_p))
        } else {
            cur.bindings == start.bindings
        }
    }

    /// Bindings are asked for, and the SSA form of a function of `rmod`, or of the stub of an
    /// import, lacks a register state.
    pub open spec fn lacks_register_state(&self, rmod: &RadecoModule<'a>) -> bool {
        &&& self.build_callgraph
        &&& self.assume_cc
        &&& {
            ||| exists|k: u64| #[trigger]
                rmod.functions@.contains_key(k) && !rmod.functions@[k].ssa.has_register_states()
            ||| exists|k: u64| #[trigger]
                rmod.imports@.contains_key(k) && !rmod.imports@[k].rfn.ssa.has_register_states()
        }
    }

    /// The second part of loading, given the backend's function list `aux_info`: builds the
    /// call graph from the list and records its nodes with the functions and imports, copies
    /// the data references from the list, sets the bindings and has the engine work out the
    /// context of each call, each as far as the loader was asked for it; then records the
    /// backend with the module. It fails if local variables were asked for, and otherwise if
    /// bindings were asked for and a register state is missing.
    pub fn analyze_with(
        &self,
        rmod: &mut RadecoModule<'a>,
        reg_p: &LRegInfo,
        aux_info: &Vec<FunctionInfo>,
        source: SourceRef<'a>,
        engine: &dyn SSAConstruct,
    ) -> (r: Result<(), LoadError>)
        requires
            old(rmod).wf(),
        ensures
            r == if self.load_locals {
                Err::<(), LoadError>(LoadError::LocalsNotSupported)
            } else if self.lacks_register_state(old(rmod)) {
                Err::<(), LoadError>(LoadError::NoRegisterState)
            } else {
                Ok::<(), LoadError>(())
            },
            r is Ok ==> {
                &&& *final(rmod) == (RadecoModule {
                    functions: final(rmod).functions,
                    imports: final(rmod).imports,
                    callgraph: final(rmod).callgraph,
                    source: Some(source),
                    ..*old(rmod)
                })
                &&& final(rmod).wf()
                &&& final(rmod).functions@.dom() == old(rmod).functions@.dom()
                &&& final(rmod).imports@.dom() == old(rmod).imports@.dom()
                &&& if self.build_callgraph {
                    let g = call_graph_of(aux_info@, Set::new(|a: u64| old(rmod).knows(a)));
                    &&& final(rmod).callgraph@.nodes == g.nodes
                    &&& Self::same_calls(g.edges, final(rmod).callgraph@.edges)
                    &&& !self.assume_cc ==> final(rmod).callgraph@.edges == g.edges
                    &&& graph_sound(g, Set::new(|a: u64| old(rmod).knows(a)))
                } else {
                    &&& final(rmod).callgraph@.nodes == old(rmod).callgraph@.nodes
                    &&& final(rmod).callgraph@.edges == old(rmod).callgraph@.edges
                }
                &&& forall|k: u64| #[trigger]
                    final(rmod).functions@.contains_key(k) ==> self.is_analysis_of(
                        old(rmod).functions@[k],
                        final(rmod).functions@[k],
                        k,
                        false,
                        false,
                        final(rmod).callgraph@.nodes,
                        aux_info@,
                        *reg_p,
                    )
                &&& forall|k: u64| #[trigger]
                    final(rmod).imports@.contains_key(k) ==> {
                        &&& final(rmod).imports@[k] == (ImportInfo {
                            rfn: final(rmod).imports@[k].rfn,
                            ..old(rmod).imports@[k]
                        })
                        &&& self.is_analysis_of(
                            old(rmod).imports@[k].rfn,
                            final(rmod).imports@[k].rfn,
                            k,
                            old(rmod).functions@.contains_key(k),
                            true,
                            final(rmod).callgraph@.nodes,
                            aux_info@,
                            *reg_p,
                        )
                    }
            },
    {
        broadcast use vstd::std_specs::hash::group_hash_axioms;

        if self.build_callgraph {
            let cg = load_call_graph(aux_info, rmod);
            rmod.callgraph = cg;
            assign_cgids(rmod);
        }
        if self.load_datarefs {
            copy_datarefs(&mut rmod.functions, aux_info);
        }
        if self.load_locals {
            return Err(LoadError::LocalsNotSupported);
        }
        assert(rmod.graph_wired());
        if self.build_callgraph && self.assume_cc {
            let sub_reg_f = SubRegisterFile::new(reg_p);
            let ghost before = *rmod;
            match init_bindings(&mut rmod.functions, &sub_reg_f) {
                Ok(_) => {},
                Err(e) => {
                    proof {
                        let k = choose|k: u64| #[trigger]
                            before.functions@.contains_key(k)
                                && !before.functions@[k].ssa.has_register_states();
                        assert(old(rmod).functions@.contains_key(k));
                    }
                    return Err(e);
                },
            }
            match init_import_bindings(&mut rmod.imports, &sub_reg_f) {
                Ok(_) => {},
                Err(e) => {
                    proof {
                        let k = choose|k: u64| #[trigger]
                            before.imports@.contains_key(k)
                                && !before.imports@[k].rfn.ssa.has_register_states();
                        assert(old(rmod).imports@.contains_key(k));
                    }
                    return Err(e);
                },
            }
            proof {
                assert forall|k: u64| #[trigger]
                    old(rmod).functions@.contains_key(k) implies old(
                    rmod,
                ).functions@[k].ssa.has_register_states() by {
                    assert(before.functions@.contains_key(k));
                }
                assert forall|k: u64| #[trigger]
                    old(rmod).imports@.contains_key(k) implies old(
                    rmod,
                ).imports@[k].rfn.ssa.has_register_states() by {
                    assert(before.imports@.contains_key(k));
                }
            }
            assert(rmod.graph_wired());
            init_call_ctx(&mut rmod.callgraph, &rmod.functions, &rmod.imports, engine);
        }
        rmod.source = Some(source);
        Ok(())
    }

    /// The second part of loading, on a module whose functions have their SSA forms as far as
    /// they were asked for: asks the backend for its function list, if the loader needs it,
    /// and goes on as `analyze_with` says.
    pub fn analyze(
        &self,
        rmod: &mut RadecoModule<'a>,
        reg_p: &LRegInfo,
        source: SourceRef<'a>,
        engine: &dyn SSAConstruct,
    ) -> (r: Result<(), LoadError>)
        requires
            old(rmod).wf(),
        ensures
            r == if self.load_locals {
                Err::<(), LoadError>(LoadError::LocalsNotSupported)
            } else if self.lacks_register_state(old(rmod)) {
                Err::<(), LoadError>(LoadError::NoRegisterState)
            } else {
                Ok::<(), LoadError>(())
            },
            r is Ok ==> {
                &&& *final(rmod) == (RadecoModule {
                    functions: final(rmod).functions,
                    imports: final(rmod).imports,
                    callgraph: final(rmod).callgraph,
                    source: Some(source),
                    ..*old(rmod)
                })
                &&& final(rmod).wf()
                &&& final(rmod).functions@.dom() == old(rmod).functions@.dom()
                &&& final(rmod).imports@.dom() == old(rmod).imports@.dom()
                &&& forall|k: u64| #[trigger]
                    final(rmod).functions@.contains_key(k) ==> self.has_analyzed(
                        old(rmod).functions@[k],
                        final(rmod).functions@[k],
                        k,
                        false,
                        final(rmod).callgraph@.nodes,
                        *reg_p,
                    )
                &&& forall|k: u64| #[trigger]
                    final(rmod).imports@.contains_key(k) ==> {
                        &&& final(rmod).imports@[k] == (ImportInfo {
                            rfn: final(rmod).imports@[k].rfn,
                            ..old(rmod).imports@[k]
                        })
                        &&& final(rmod).imports@[k].rfn.datarefs == old(
                            rmod,
                        ).imports@[k].rfn.datarefs
                        &&& self.has_analyzed(
                            old(rmod).imports@[k].rfn,
                            final(rmod).imports@[k].rfn,
                            k,
                            old(rmod).functions@.contains_key(k),
                            final(rmod).callgraph@.nodes,
                            *reg_p,
                        )
                    }
                &&& if self.build_callgraph {
                    graph_sound(
                        final(rmod).callgraph@,
                        Set::new(|a: u64| old(rmod).knows(a)),
                    )
                } else {
                    &&& final(rmod).callgraph@.nodes == old(rmod).callgraph@.nodes
                    &&& final(rmod).callgraph@.edges == old(rmod).callgraph@.edges
                }
            },
    {
        let aux_info = if self.build_callgraph || self.load_datarefs || self.load_locals {
            match source.backend.functions() {
                Ok(info) => info,
                Err(_) => Vec::new(),
            }
        } else {
            Vec::new()
        };
        let r = self.analyze_with(rmod, reg_p, &aux_info, source, engine);
        proof {
            if r is Ok {
                let rf = profile_view(*reg_p);
                assert forall|k: u64| #[trigger]
                    rmod.functions@.contains_key(k) implies self.has_analyzed(
                    old(rmod).functions@[k],
                    rmod.functions@[k],
                    k,
                    false,
                    rmod.callgraph@.nodes,
                    *reg_p,
                ) by {
                    let f = old(rmod).functions@[k];
                    assert(old(rmod).functions@.contains_key(k));
                    if self.build_callgraph && self.assume_cc {
                        lemma_inferred_leads(&f.ssa, rf);
                    }
                }
                assert forall|k: u64| #[trigger] rmod.imports@.contains_key(k) implies self.has_analyzed(
                    old(rmod).imports@[k].rfn,
                    rmod.imports@[k].rfn,
                    k,
                    old(rmod).functions@.contains_key(k),
                    rmod.callgraph@.nodes,
                    *reg_p,
                ) by {
                    let f = old(rmod).imports@[k].rfn;
                    assert(old(rmod).imports@.contains_key(k));
                    if self.build_callgraph && self.assume_cc {
                        lemma_inferred_leads(&f.ssa, rf);
                    }
                }
            }
        }
        r
    }

    /// What holds of a module that this loader has loaded, `src` being the backend handed to
    /// it: the module is well-formed and records the backend it was loaded from; of what a
    /// loader adds to a function or to the stub of an import, nothing is set that the loader
    /// was not asked for; where bindings were asked for, the register arguments come first,
    /// ordered by position; the call graph is empty unless it was asked for, and if it was,
    /// every function and import is recorded with the last node that bears its address, or
    /// with node 0 if none does; and the functions that the module's symbol table identifies
    /// are among its functions, where the symbol table is read and no filter is set.
    pub open spec fn has_loaded(&self, src: SourceRef<'a>, rmod: &RadecoModule<'a>) -> bool {
        &&& !self.load_locals
        &&& rmod.wf()
        &&& rmod.source == Some(self.chosen_source(src))
        &&& forall|k: u64| #[trigger]
            rmod.functions@.contains_key(k) ==> rmod.functions@[k].is_untouched_but(
                true,
                self.build_ssa,
                self.build_callgraph,
                self.load_datarefs,
                self.build_callgraph && self.assume_cc,
            )
        &&& forall|k: u64| #[trigger]
            rmod.imports@.contains_key(k) ==> {
                &&& rmod.imports@[k].rfn.name@ == rmod.imports@[k].name@
                &&& rmod.imports@[k].rfn.offset == k
                &&& rmod.imports@[k].rfn.size == 0
                &&& rmod.imports@[k].rfn.is_untouched_but(
                    false,
                    self.stub_imports,
                    self.build_callgraph,
                    false,
                    self.build_callgraph && self.assume_cc,
                )
            }
        &&& self.build_callgraph && self.assume_cc ==> {
            &&& forall|k: u64| #[trigger]
                rmod.functions@.contains_key(k) ==> {
                    &&& rmod.functions@[k].ssa.has_register_states()
                    &&& arguments_lead(rmod.functions@[k].bindings@)
                }
            &&& forall|k: u64| #[trigger]
                rmod.imports@.contains_key(k) ==> {
                    &&& rmod.imports@[k].rfn.ssa.has_register_states()
                    &&& arguments_lead(rmod.imports@[k].rfn.bindings@)
                }
        }
        &&& if self.build_callgraph {
            &&& graph_sound(rmod.callgraph@, Set::new(|a: u64| rmod.knows(a)))
            &&& forall|k: u64| #[trigger]
                rmod.functions@.contains_key(k) ==> rmod.functions@[k].cgid == cgid_after(
                    rmod.callgraph@.nodes,
                    k,
                    NodeIndex(0),
                )
            &&& forall|k: u64| #[trigger]
                rmod.imports@.contains_key(k) ==> rmod.imports@[k].rfn.cgid
                    == if rmod.functions@.contains_key(k) {
                    NodeIndex(0)
                } else {
                    cgid_after(rmod.callgraph@.nodes, k, NodeIndex(0))
                }
        } else {
            &&& rmod.callgraph@.nodes.len() == 0
            &&& rmod.callgraph@.edges.len() == 0
        }
        &&& self.keeps_symbols() ==> identified_by_symbols(
            rmod.symbols@,
        ).functions.dom().subset_of(rmod.functions@.dom())
    }

    /// Does every function that the symbol table identifies stay in the module? So it is
    /// where the strategy that reads the symbol table is among the strategies and no filter
    /// is set.
    pub open spec fn keeps_symbols(&self) -> bool {
        &&& self.filter is None
        &&& match self.floader {
            Some(f) => reads_symbols(f.strategies@),
            None => true,
        }
    }

    /// The errors with which this loader may give up: any but the lack of a backend; the
    /// refusal of local variables only if they were asked for; a missing register state only
    /// if bindings were asked for.
    pub open spec fn may_fail_with(&self, e: LoadError) -> bool {
        &&& e != LoadError::NoSource
        &&& e == LoadError::LocalsNotSupported ==> self.load_locals
        &&& e == LoadError::NoRegisterState ==> self.build_callgraph && self.assume_cc
    }

    /// Loads a module from the backend of the loader, or, if it has none, from `src`. The
    /// SSA forms are built one after the other, whatever `parallel` says: a caller that can
    /// run the engine on several functions at once calls `load_metadata`, installs the SSA
    /// forms with `install_ssa` and goes on with `analyze`.
    ///
    /// Loading fails if the backend gives no register profile, if local variables were asked
    /// for, and if bindings were asked for and a register state is missing. In the module
    /// that is returned, every function is filed under its start address and every import
    /// under the address of its entry in the procedure linkage table, every node of the
    /// call graph is recorded with the function or import that it stands for, and nothing
    /// is set that the loader was not asked for.
    pub fn load(&mut self, src: SourceRef<'a>, engine: &dyn SSAConstruct) -> (r: Result<
        RadecoModule<'a>,
        LoadError,
    >)
        ensures
            final(self).is_prepared(old(self), old(self).chosen_source(src)),
            old(self).load_locals ==> r is Err,
            match r {
                Ok(rmod) => old(self).has_loaded(src, &rmod),
                Err(e) => old(self).may_fail_with(e),
            },
    {
        let source = match self.source {
            Some(own) => own,
            None => src,
        };
        let (mut rmod, reg_p) = match self.load_metadata(src) {
            Ok(loaded) => loaded,
            Err(e) => {
                return Err(e);
            },
        };
        if self.build_ssa {
            construct_ssa(&mut rmod.functions, engine, &reg_p, self.assume_cc);
        }
        if self.stub_imports {
            construct_import_ssa(&mut rmod.imports, engine, &reg_p, self.assume_cc);
        }
        let ghost before = rmod;
        assert(before.wf());
        match self.analyze(&mut rmod, &reg_p, source, engine) {
            Ok(_) => {
                proof {
                    assert(Set::new(|a: u64| before.knows(a)) =~= Set::new(|a: u64| rmod.knows(a)));
                    assert forall|k: u64| #[trigger]
                        rmod.functions@.contains_key(k) implies rmod.functions@[k].is_untouched_but(
                        true,
                        self.build_ssa,
                        self.build_callgraph,
                        self.load_datarefs,
                        self.build_callgraph && self.assume_cc,
                    ) by {
                        assert(before.functions@.contains_key(k));
                        assert(self.has_analyzed(
                            before.functions@[k],
                            rmod.functions@[k],
                            k,
                            false,
                            rmod.callgraph@.nodes,
                            reg_p,
                        ));
                    }
                    assert forall|k: u64| #[trigger] rmod.imports@.contains_key(k) implies {
                        &&& rmod.imports@[k].rfn.name@ == rmod.imports@[k].name@
                        &&& rmod.imports@[k].rfn.offset == k
                        &&& rmod.imports@[k].rfn.size == 0
                        &&& rmod.imports@[k].rfn.is_untouched_but(
                            false,
                            self.stub_imports,
                            self.build_callgraph,
                            false,
                            self.build_callgraph && self.assume_cc,
                        )
                    } by {
                        assert(before.imports@.contains_key(k));
                        assert(self.has_analyzed(
                            before.imports@[k].rfn,
                            rmod.imports@[k].rfn,
                            k,
                            before.functions@.contains_key(k),
                            rmod.callgraph@.nodes,
                            reg_p,
                        ));
                    }
                }
                Ok(rmod)
            },
            Err(e) => Err(e),
        }
    }

    /// Whether the loader is asked to build the SSA forms in parallel bears on nothing that
    /// the contracts of loading state: two loaders that differ in this alone promise the same
    /// of a loaded module, give up with the same errors, and make the same of every function
    /// in the second part of loading.
    pub proof fn lemma_parallel_bears_on_nothing(
        &self,
        other: &ModuleLoader<'a>,
        src: SourceRef<'a>,
        rmod: &RadecoModule<'a>,
        e: LoadError,
        start: RadecoFunction,
        cur: RadecoFunction,
        addr: u64,
        shadowed: bool,
        import: bool,
        nodes: Seq<u64>,
        aux: Seq<FunctionInfo>,
        reg_p: LRegInfo,
    )
        requires
            *other == (ModuleLoader { parallel: !self.parallel, ..*self }),
        ensures
            self.has_loaded(src, rmod) == other.has_loaded(src, rmod),
            self.may_fail_with(e) == other.may_fail_with(e),
            self.lacks_register_state(rmod) == other.lacks_register_state(rmod),
            self.is_analysis_of(start, cur, addr, shadowed, import, nodes, aux, reg_p)
                == other.is_analysis_of(start, cur, addr, shadowed, import, nodes, aux, reg_p),
    {
    }

    /// Does the SSA form have the register states that bindings are derived from?
    pub fn has_register_states(ssa: &SSAStorage) -> (r: bool)
        ensures
            r == ssa.has_register_states(),
    {
        let at_entry = match ssa.entry_node() {
            Some(entry) => ssa.registers_in(entry).is_some(),
            None => false,
        };
        let at_exit = match ssa.exit_node() {
            Some(exit) => ssa.registers_in(exit).is_some(),
            None => false,
        };
        at_entry && at_exit
    }
}

} // verus!
