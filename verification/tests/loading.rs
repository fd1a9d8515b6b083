use radeco_core::bindings::BindingType;
use radeco_core::callgraph::CGInfo;
use radeco_core::floader::{FLResult, FunctionLoader, PredicatedLoader, Strategy};
use radeco_core::function::RadecoFunction;
use radeco_core::index::NodeIndex;
use radeco_core::mloader::{FunctionFilter, LoadError, ModuleLoader};
use radeco_core::module::RadecoModule;
use radeco_core::project::ProjectLoader;
use radeco_core::source::{
    FunctionInfo, LAliasInfo, LCallInfo, LEntryInfo, LExportInfo, LImportInfo, LOpInfo, LRegInfo,
    LRegProfile, LRelocInfo, LSectionInfo, LSymbolInfo, LSymbolType, Source, SourceErr, SourceRef,
};
use radeco_core::ssa::{NodeType, SSAConstruct, SSAStorage};

/// A backend that answers from what it holds.
#[derive(Default)]
struct FixedSource {
    symbols: Option<Vec<LSymbolInfo>>,
    sections: Option<Vec<LSectionInfo>>,
    imports: Option<Vec<LImportInfo>>,
    functions: Option<Vec<FunctionInfo>>,
    libraries: Option<Vec<String>>,
    regs: Option<LRegInfo>,
    no_code_at: Option<u64>,
}

fn failed<T>() -> Result<T, SourceErr> {
    Err(SourceErr { reason: String::from("no answer") })
}

impl Source for FixedSource {
    fn functions(&self) -> Result<Vec<FunctionInfo>, SourceErr> {
        self.functions.clone().ok_or(SourceErr { reason: String::from("no functions") })
    }

    fn disassemble_n_bytes(&self, n: u64, at: u64) -> Result<Vec<LOpInfo>, SourceErr> {
        if self.no_code_at == Some(at) {
            return failed();
        }
        let mut ops = Vec::new();
        let mut done = 0;
        while done < n {
            ops.push(LOpInfo {
                esil: None,
                offset: Some(at + done),
                opcode: Some(String::from("nop")),
                optype: None,
                size: Some(4),
            });
            done += 4;
        }
        Ok(ops)
    }

    fn register_profile(&self) -> Result<LRegInfo, SourceErr> {
        self.regs.clone().ok_or(SourceErr { reason: String::from("no profile") })
    }

    fn symbols(&self) -> Result<Vec<LSymbolInfo>, SourceErr> {
        self.symbols.clone().ok_or(SourceErr { reason: String::from("no symbols") })
    }

    fn sections(&self) -> Result<Vec<LSectionInfo>, SourceErr> {
        self.sections.clone().ok_or(SourceErr { reason: String::from("no sections") })
    }

    fn imports(&self) -> Result<Vec<LImportInfo>, SourceErr> {
        self.imports.clone().ok_or(SourceErr { reason: String::from("no imports") })
    }

    fn exports(&self) -> Result<Vec<LExportInfo>, SourceErr> {
        failed()
    }

    fn relocs(&self) -> Result<Vec<LRelocInfo>, SourceErr> {
        failed()
    }

    fn libraries(&self) -> Result<Vec<String>, SourceErr> {
        self.libraries.clone().ok_or(SourceErr { reason: String::from("no libraries") })
    }

    fn entrypoint(&self) -> Result<Vec<LEntryInfo>, SourceErr> {
        Ok(vec![LEntryInfo { vaddr: Some(0x1000), ..LEntryInfo::default() }])
    }
}

fn alias(role: &str, reg: &str) -> LAliasInfo {
    LAliasInfo { reg: String::from(reg), role: 0, role_str: String::from(role) }
}

fn register(name: &str) -> LRegProfile {
    LRegProfile {
        name: String::from(name),
        offset: 0,
        size: 64,
        type_str: String::from("gpr"),
        regtype: 0,
    }
}

fn x86_profile() -> LRegInfo {
    LRegInfo {
        alias_info: vec![alias("SN", "rax"), alias("A1", "rsi"), alias("PC", "rip"), alias("A0", "rdi")],
        reg_info: vec![register("rax"), register("rdi"), register("rsi"), register("rip")],
    }
}

fn func_symbol(name: &str, vaddr: u64, size: u64) -> LSymbolInfo {
    LSymbolInfo {
        name: Some(String::from(name)),
        vaddr: Some(vaddr),
        size: Some(size),
        stype: Some(LSymbolType::Func),
        ..LSymbolInfo::default()
    }
}

fn listed(name: &str, offset: u64, size: u64) -> FunctionInfo {
    FunctionInfo {
        name: Some(String::from(name)),
        offset: Some(offset),
        size: Some(size),
        ..FunctionInfo::default()
    }
}

fn import(name: &str, plt: Option<u64>) -> LImportInfo {
    LImportInfo { name: Some(String::from(name)), plt, ..LImportInfo::default() }
}

fn call(target: u64, csite: u64) -> LCallInfo {
    LCallInfo { target: Some(target), call_type: Some(String::from("C")), source: Some(csite) }
}

/// An engine whose SSA forms hold the registers `rsi`, `rdi` at the entry and `rax` at the
/// exit, and which says of every call that it passes node 3 of the caller to node 2 of the
/// callee.
struct RegisterEngine;

fn register_ssa() -> SSAStorage {
    let mut ssa = SSAStorage::new();
    let entry = ssa.insert_node(NodeType::Op);
    let exit = ssa.insert_node(NodeType::Op);
    let rsi = ssa.insert_node(NodeType::Comment(String::from("rsi")));
    let rdi = ssa.insert_node(NodeType::Comment(String::from("rdi")));
    let rax = ssa.insert_node(NodeType::Comment(String::from("rax")));
    let at_entry = ssa.insert_node(NodeType::Undefined);
    let at_exit = ssa.insert_node(NodeType::Undefined);
    assert!(ssa.op_use(at_entry, rsi));
    assert!(ssa.op_use(at_entry, rdi));
    assert!(ssa.op_use(at_exit, rax));
    assert!(ssa.set_registers(entry, at_entry));
    assert!(ssa.set_registers(exit, at_exit));
    ssa.mark_entry_node(entry);
    ssa.mark_exit_node(exit);
    ssa
}

impl SSAConstruct for RegisterEngine {
    fn construct(&self, _rfn: &RadecoFunction, _reg_p: &LRegInfo, _assume_cc: bool) -> SSAStorage {
        register_ssa()
    }

    fn call_context(
        &self,
        _caller: &RadecoFunction,
        _callee: &RadecoFunction,
        csite: u64,
    ) -> (NodeIndex, Vec<(NodeIndex, NodeIndex)>) {
        (NodeIndex::new((csite % 16) as usize), vec![(NodeIndex::new(3), NodeIndex::new(2))])
    }
}

/// An engine that builds nothing.
struct IdleEngine;

impl SSAConstruct for IdleEngine {
    fn construct(&self, _rfn: &RadecoFunction, _reg_p: &LRegInfo, _assume_cc: bool) -> SSAStorage {
        SSAStorage::new()
    }

    fn call_context(
        &self,
        _caller: &RadecoFunction,
        _callee: &RadecoFunction,
        _csite: u64,
    ) -> (NodeIndex, Vec<(NodeIndex, NodeIndex)>) {
        (NodeIndex::end(), Vec::new())
    }
}

fn keys(rmod: &RadecoModule) -> Vec<u64> {
    rmod.functions.keys().copied().collect()
}

#[test]
fn test_fn_loader() {
    struct Fixed;
    impl PredicatedLoader for Fixed {
        fn strategy(&self, _source: Option<SourceRef>, _last: &FLResult, _rmod: &RadecoModule) -> FLResult {
            let mut fl = FLResult::new();
            fl.insert(String::from("entry0"), 0x400, 42);
            fl
        }
    }
    let ld = Fixed;
    let mut fl = FunctionLoader::default().strategy(&ld);
    let rmod = RadecoModule::new(String::from("a.out"));
    let found = fl.load(&rmod);
    assert_eq!(found.new_count(), 1);
    assert!(found.contains(0x400));
    let functions = found.into_functions();
    assert_eq!(functions[&0x400].name, "entry0");
    assert_eq!(functions[&0x400].size, 42);
    assert_eq!(functions[&0x400].offset, 0x400);
}

#[test]
fn empty_symbols_and_no_source_functions_give_an_empty_module() {
    let source = FixedSource {
        symbols: Some(Vec::new()),
        functions: Some(Vec::new()),
        regs: Some(x86_profile()),
        ..FixedSource::default()
    };
    let project = ProjectLoader::default()
        .source(SourceRef { backend: &source })
        .module_loader(ModuleLoader::default().build_callgraph())
        .load(&IdleEngine)
        .unwrap();
    assert_eq!(project.modules.len(), 1);
    assert!(project.modules[0].functions.is_empty());
    assert_eq!(project.modules[0].callgraph.node_count(), 0);
    assert_eq!(project.modules[0].callgraph.edge_count(), 0);
}

#[test]
fn single_symbol_function_is_identified() {
    let source = FixedSource {
        symbols: Some(vec![func_symbol("main", 0x1000, 16)]),
        functions: Some(vec![listed("other", 0x3000, 4)]),
        regs: Some(x86_profile()),
        ..FixedSource::default()
    };
    let floader = FunctionLoader { source: None, strategies: vec![Strategy::UseSymbols] };
    let mut loader = ModuleLoader::default().function_loader(floader);
    let rmod = loader.load(SourceRef { backend: &source }, &IdleEngine).unwrap();
    assert_eq!(keys(&rmod), vec![0x1000]);
    assert_eq!(rmod.functions[&0x1000].name, "main");
    assert_eq!(rmod.functions[&0x1000].size, 16);
    assert_eq!(rmod.functions[&0x1000].offset, 0x1000);
    assert_eq!(rmod.functions[&0x1000].instructions.len(), 4);
    assert_eq!(rmod.functions[&0x1000].instructions[1].offset, Some(0x1004));
}

#[test]
fn later_strategy_overrides_earlier_one() {
    let source = FixedSource {
        symbols: Some(vec![func_symbol("f", 0x2000, 8)]),
        functions: Some(vec![listed("g", 0x2000, 12)]),
        regs: Some(x86_profile()),
        ..FixedSource::default()
    };
    let mut loader = ModuleLoader::default();
    let rmod = loader.load(SourceRef { backend: &source }, &IdleEngine).unwrap();
    assert_eq!(keys(&rmod), vec![0x2000]);
    assert_eq!(rmod.functions[&0x2000].name, "g");
    assert_eq!(rmod.functions[&0x2000].size, 12);
    let floader = loader.floader.as_ref().unwrap();
    assert_eq!(floader.strategies.len(), 2);
    assert!(matches!(floader.strategies[0], Strategy::UseSymbols));
    assert!(matches!(floader.strategies[1], Strategy::UseSource));
    assert!(floader.source.is_some());
}

#[test]
fn imports_are_stubbed_and_get_ssa() {
    let source = FixedSource {
        imports: Some(vec![
            import("puts", Some(0x400)),
            import("nowhere", None),
            import("read", Some(0x408)),
            LImportInfo { plt: Some(0x410), ..LImportInfo::default() },
        ]),
        regs: Some(x86_profile()),
        ..FixedSource::default()
    };
    let mut plain = ModuleLoader::default();
    let rmod = plain.load(SourceRef { backend: &source }, &RegisterEngine).unwrap();
    let mut plts: Vec<u64> = rmod.imports.keys().copied().collect();
    plts.sort();
    assert_eq!(plts, vec![0x400, 0x408, 0x410]);
    assert_eq!(rmod.imports[&0x410].name, "");
    assert_eq!(rmod.imports[&0x410].rfn.name, "");
    assert_eq!(rmod.imports[&0x410].rfn.offset, 0x410);
    assert_eq!(rmod.imports[&0x400].name, "puts");
    assert_eq!(rmod.imports[&0x408].name, "read");
    assert_eq!(rmod.imports[&0x400].plt, 0x400);
    assert_eq!(rmod.imports[&0x408].plt, 0x408);
    assert_eq!(rmod.imports[&0x408].rfn.name, "read");
    assert_eq!(rmod.imports[&0x408].rfn.offset, 0x408);
    assert_eq!(rmod.imports[&0x400].rfn.ssa.node_count(), 0);
    assert!(rmod.imports[&0x400].rfn.ssa.entry_node().is_none());

    let mut stubbing = ModuleLoader::default().stub_imports().build_ssa();
    let rmod = stubbing.load(SourceRef { backend: &source }, &RegisterEngine).unwrap();
    for plt in [0x400u64, 0x408] {
        let ssa = &rmod.imports[&plt].rfn.ssa;
        assert_eq!(ssa.node_count(), 7);
        assert!(ssa.entry_node().is_some());
        assert!(ssa.exit_node().is_some());
    }
}

#[test]
fn bindings_follow_the_calling_convention() {
    let source = FixedSource {
        symbols: Some(vec![func_symbol("main", 0x1000, 16)]),
        functions: Some(vec![listed("main", 0x1000, 16)]),
        regs: Some(LRegInfo {
            alias_info: vec![alias("A0", "rdi"), alias("A1", "rsi"), alias("SN", "rax")],
            reg_info: vec![register("rax"), register("rdi"), register("rsi")],
        }),
        ..FixedSource::default()
    };
    let mut loader = ModuleLoader::default().build_ssa().build_callgraph().assume_cc();
    let rmod = loader.load(SourceRef { backend: &source }, &RegisterEngine).unwrap();
    let bindings = rmod.functions[&0x1000].bindings();
    assert_eq!(bindings.len(), 3);
    let mut it = bindings.into_iter();
    let first = it.next().unwrap();
    assert_eq!(first.btype(), BindingType::RegisterArgument(0));
    assert_eq!(first.index(), NodeIndex::new(3));
    assert_eq!(first.ridx, Some(1));
    let second = it.next().unwrap();
    assert_eq!(second.btype(), BindingType::RegisterArgument(1));
    assert_eq!(second.index(), NodeIndex::new(2));
    assert_eq!(second.ridx, Some(2));
    let third = it.next().unwrap();
    assert_eq!(third.btype(), BindingType::Return);
    assert_eq!(third.index(), NodeIndex::new(4));
    assert_eq!(third.ridx, Some(0));
    assert!(it.next().is_none());
}

#[test]
fn register_arguments_are_moved_to_the_front() {
    let source = FixedSource {
        functions: Some(vec![listed("main", 0x1000, 16)]),
        regs: Some(x86_profile()),
        ..FixedSource::default()
    };
    let mut loader = ModuleLoader::default().build_ssa().build_callgraph().assume_cc();
    let rmod = loader.load(SourceRef { backend: &source }, &RegisterEngine).unwrap();
    let kinds: Vec<BindingType> = rmod.functions[&0x1000].bindings.0.iter().map(|b| b.btype).collect();
    assert_eq!(
        kinds,
        vec![BindingType::RegisterArgument(0), BindingType::RegisterArgument(1), BindingType::Return]
    );
    let nodes: Vec<usize> = rmod.functions[&0x1000].bindings.0.iter().map(|b| b.idx.index()).collect();
    assert_eq!(nodes, vec![3, 2, 4]);
}

fn two_functions_and_an_import() -> FixedSource {
    FixedSource {
        functions: Some(vec![
            FunctionInfo {
                callrefs: Some(vec![call(0x2000, 0x1004), call(0x400, 0x1008), call(0x9000, 0x100c)]),
                datarefs: Some(vec![0x6000, 0x6008]),
                ..listed("main", 0x1000, 16)
            },
            FunctionInfo { callrefs: Some(vec![call(0x2000, 0x2004)]), ..listed("helper", 0x2000, 8) },
            FunctionInfo { datarefs: Some(vec![0x7000]), ..listed("gone", 0x5000, 8) },
        ]),
        imports: Some(vec![import("puts", Some(0x400))]),
        regs: Some(x86_profile()),
        ..FixedSource::default()
    }
}

struct Below(u64);

impl FunctionFilter for Below {
    fn keep(&self, rfn: &RadecoFunction) -> bool {
        rfn.offset < self.0
    }
}

#[test]
fn call_graph_is_wired_to_functions_and_imports() {
    let source = two_functions_and_an_import();
    let keep = Below(0x5000);
    let mut loader = ModuleLoader::default().build_callgraph().filter(&keep);
    let rmod = loader.load(SourceRef { backend: &source }, &IdleEngine).unwrap();
    assert_eq!(keys(&rmod), vec![0x1000, 0x2000]);
    let cg = rmod.callgraph();
    assert_eq!(cg.node_count(), 3);
    assert_eq!(cg.edge_count(), 3);
    let main = rmod.functions[&0x1000].cgid();
    let helper = rmod.functions[&0x2000].cgid();
    let puts = rmod.imports[&0x400].rfn.cgid();
    assert_eq!((main.index(), helper.index(), puts.index()), (0, 1, 2));
    assert_eq!(cg.callees(main), vec![(0x1008, puts), (0x1004, helper)]);
    assert_eq!(cg.callers(helper), vec![(0x2004, helper), (0x1004, main)]);
    assert_eq!(cg.callees(helper), vec![(0x2004, helper)]);
    assert_eq!(cg.callers(puts), vec![(0x1008, main)]);
    assert_eq!(cg.callers(main), Vec::new());
    assert_eq!(cg.callees(NodeIndex::new(7)), Vec::new());
    for n in 0..cg.node_count() {
        let addr = cg.node_weight(NodeIndex::new(n)).unwrap();
        let in_functions = rmod.functions.values().filter(|f| f.cgid().index() == n).count();
        let in_imports = rmod.imports.values().filter(|i| i.rfn.cgid().index() == n).count();
        assert_eq!(in_functions + in_imports, 1);
        assert!(rmod.functions.contains_key(&addr) || rmod.imports.contains_key(&addr));
    }
    assert!(rmod.functions[&0x1000].datarefs.is_empty());
    assert!(rmod.functions[&0x1000].bindings().len() == 0);
    assert!(rmod.source.is_some());
}

#[test]
fn a_call_edge_is_seen_from_both_ends() {
    let source = FixedSource {
        functions: Some(vec![
            FunctionInfo { callrefs: Some(vec![call(0x2000, 0x1004)]), ..listed("a", 0x1000, 8) },
            listed("b", 0x2000, 8),
        ]),
        regs: Some(x86_profile()),
        ..FixedSource::default()
    };
    let mut loader = ModuleLoader::default().build_callgraph();
    let rmod = loader.load(SourceRef { backend: &source }, &IdleEngine).unwrap();
    let a = rmod.functions[&0x1000].cgid();
    let b = rmod.functions[&0x2000].cgid();
    assert_ne!(a, b);
    assert_eq!(rmod.callgraph.node_weight(a), Some(0x1000));
    assert_eq!(rmod.callgraph.node_weight(b), Some(0x2000));
    assert_eq!(rmod.callgraph.callees(a), vec![(0x1004, b)]);
    assert_eq!(rmod.callgraph.callers(b), vec![(0x1004, a)]);
}

#[test]
fn call_contexts_are_filled_in_when_bindings_are_asked_for() {
    let source = two_functions_and_an_import();
    let mut loader = ModuleLoader::default().build_callgraph().build_ssa().stub_imports().assume_cc();
    let rmod = loader.load(SourceRef { backend: &source }, &RegisterEngine).unwrap();
    assert_eq!(rmod.callgraph.edge_count(), 3);
    let csites: Vec<u64> =
        (0..3).map(|e| rmod.callgraph.edge_weight(e).unwrap().csite).collect();
    assert_eq!(csites, vec![0x1004, 0x1008, 0x2004]);
    for e in 0..3 {
        let w = rmod.callgraph.edge_weight(e).unwrap();
        assert_eq!(w.csite_node, NodeIndex::new((w.csite % 16) as usize));
        assert_eq!(w.map, vec![(NodeIndex::new(3), NodeIndex::new(2))]);
    }
    assert!(rmod.callgraph.edge_weight(3).is_none());
    assert_eq!(rmod.imports[&0x400].rfn.bindings().len(), 3);
    assert_eq!(rmod.functions[&0x5000].bindings().len(), 3);
}

#[test]
fn data_references_come_from_the_last_entry_for_a_function() {
    let mut source = two_functions_and_an_import();
    source.functions.as_mut().unwrap().push(FunctionInfo {
        datarefs: Some(vec![0x8000]),
        ..listed("main", 0x1000, 16)
    });
    source.functions.as_mut().unwrap().push(FunctionInfo { datarefs: None, ..listed("gone", 0x5000, 8) });
    let mut loader = ModuleLoader::default().load_datarefs();
    let rmod = loader.load(SourceRef { backend: &source }, &IdleEngine).unwrap();
    assert_eq!(rmod.functions[&0x1000].datarefs, vec![0x8000]);
    assert!(rmod.functions[&0x2000].datarefs.is_empty());
    assert!(rmod.functions[&0x5000].datarefs.is_empty());
    assert_eq!(rmod.callgraph.node_count(), 0);
}

#[test]
fn keys_are_offsets_and_plt_addresses() {
    let source = FixedSource {
        symbols: Some(vec![
            func_symbol("a", 0x30, 4),
            func_symbol("b", 0x10, 4),
            LSymbolInfo { stype: Some(LSymbolType::Obj), ..func_symbol("data", 0x50, 4) },
            LSymbolInfo { name: None, ..func_symbol("", 0x60, 4) },
            LSymbolInfo { vaddr: None, ..func_symbol("nowhere", 0, 4) },
            LSymbolInfo { size: None, ..func_symbol("sizeless", 0x70, 0) },
            func_symbol("c", 0x20, 4),
        ]),
        imports: Some(vec![import("x", Some(7)), import("y", Some(3)), import("z", Some(7))]),
        regs: Some(x86_profile()),
        no_code_at: Some(0x20),
        ..FixedSource::default()
    };
    let mut loader = ModuleLoader::default();
    let rmod = loader.load(SourceRef { backend: &source }, &IdleEngine).unwrap();
    assert_eq!(keys(&rmod), vec![0x10, 0x20, 0x30]);
    for (addr, rfn) in rmod.functions.iter() {
        assert_eq!(rfn.offset, *addr);
    }
    for (plt, imp) in rmod.imports.iter() {
        assert_eq!(imp.plt, *plt);
    }
    assert_eq!(rmod.imports.len(), 2);
    assert_eq!(rmod.imports[&7].name, "z");
    assert_eq!(rmod.functions[&0x10].instructions.len(), 1);
    assert!(rmod.functions[&0x20].instructions.is_empty());
    assert_eq!(rmod.symbols.len(), 7);
    assert_eq!(rmod.entrypoint.len(), 1);
    assert!(rmod.libs.is_empty());
    assert!(rmod.sections().is_empty());
    let mut it = rmod.iter();
    let mut seen = Vec::new();
    while let Some(z) = it.next() {
        assert_eq!(z.function.1.offset, z.function.0);
        assert_eq!(z.module.imports.len(), 2);
        seen.push(z.function.0);
    }
    assert_eq!(seen, vec![0x10, 0x20, 0x30]);
}

#[test]
fn ssa_is_built_only_when_asked_for() {
    let source = FixedSource {
        symbols: Some(vec![func_symbol("a", 0x30, 4), func_symbol("b", 0x10, 8)]),
        imports: Some(vec![import("x", Some(7))]),
        regs: Some(x86_profile()),
        ..FixedSource::default()
    };
    let mut without = ModuleLoader::default().parallel();
    let rmod = without.load(SourceRef { backend: &source }, &RegisterEngine).unwrap();
    for rfn in rmod.functions.values() {
        assert_eq!(rfn.ssa().node_count(), 0);
        assert!(rfn.ssa().entry_node().is_none());
        assert!(rfn.ssa().exit_node().is_none());
    }
    let mut with = ModuleLoader::default().build_ssa();
    let rmod = with.load(SourceRef { backend: &source }, &RegisterEngine).unwrap();
    for rfn in rmod.functions.values() {
        assert!(!rfn.instructions().is_empty());
        assert_eq!(rfn.ssa().node_count(), 7);
    }
    assert_eq!(rmod.imports[&7].rfn.ssa.node_count(), 0);
    let mut parallel = ModuleLoader::default().build_ssa().parallel();
    let other = parallel.load(SourceRef { backend: &source }, &RegisterEngine).unwrap();
    assert_eq!(keys(&other), keys(&rmod));
    for (addr, rfn) in other.functions.iter() {
        assert_eq!(rfn.ssa().node_count(), rmod.functions[addr].ssa().node_count());
        assert_eq!(rfn.name, rmod.functions[addr].name);
    }
}

#[test]
fn loading_fails_without_a_register_profile() {
    let source = FixedSource { symbols: Some(vec![func_symbol("a", 0x30, 4)]), ..FixedSource::default() };
    let mut loader = ModuleLoader::default();
    assert_eq!(loader.load(SourceRef { backend: &source }, &IdleEngine).err(), Some(LoadError::NoRegisterProfile));
    let project = ProjectLoader::default().source(SourceRef { backend: &source }).load(&IdleEngine);
    assert_eq!(project.err(), Some(LoadError::NoRegisterProfile));
}

#[test]
fn loading_locals_is_refused() {
    let source = FixedSource { regs: Some(x86_profile()), ..FixedSource::default() };
    let mut loader = ModuleLoader::default().load_locals();
    assert_eq!(loader.load(SourceRef { backend: &source }, &IdleEngine).err(), Some(LoadError::LocalsNotSupported));
    let mut loader = ModuleLoader::default().load_locals().build_callgraph().assume_cc();
    assert_eq!(loader.load(SourceRef { backend: &source }, &IdleEngine).err(), Some(LoadError::LocalsNotSupported));
}

#[test]
fn bindings_need_register_states() {
    let source = two_functions_and_an_import();
    let mut no_ssa = ModuleLoader::default().build_callgraph().assume_cc();
    assert_eq!(no_ssa.load(SourceRef { backend: &source }, &RegisterEngine).err(), Some(LoadError::NoRegisterState));
    let mut no_stub_ssa = ModuleLoader::default().build_callgraph().assume_cc().build_ssa();
    assert_eq!(
        no_stub_ssa.load(SourceRef { backend: &source }, &RegisterEngine).err(),
        Some(LoadError::NoRegisterState)
    );
    let mut idle = ModuleLoader::default().build_callgraph().assume_cc().build_ssa().stub_imports();
    assert_eq!(idle.load(SourceRef { backend: &source }, &IdleEngine).err(), Some(LoadError::NoRegisterState));
    let mut fine = ModuleLoader::default().build_callgraph().assume_cc().build_ssa().stub_imports();
    assert!(fine.load(SourceRef { backend: &source }, &RegisterEngine).is_ok());
}

#[test]
fn project_without_a_source_is_not_loaded() {
    let loader = ProjectLoader::default().path("/bin/ls").load_libs().load_library_path("/usr/lib");
    assert_eq!(loader.path, "/bin/ls");
    assert!(loader.load_libs);
    assert_eq!(loader.load_library_path.as_deref(), Some("/usr/lib"));
    assert_eq!(loader.load(&IdleEngine).err(), Some(LoadError::NoSource));
}

#[test]
fn project_holds_one_module_and_the_register_file() {
    let source = two_functions_and_an_import();
    let other = FixedSource {
        symbols: Some(vec![func_symbol("only", 0x77, 4)]),
        regs: Some(x86_profile()),
        ..FixedSource::default()
    };
    let mut project = ProjectLoader::default()
        .source(SourceRef { backend: &source })
        .load(&IdleEngine)
        .unwrap();
    assert_eq!(project.modules.len(), 1);
    assert_eq!(keys(&project.modules[0]), vec![0x1000, 0x2000, 0x5000]);
    assert_eq!(project.regfile().alias_info.len(), 4);
    assert_eq!(project.regfile().alias_info[1].alias, "A1");
    assert_eq!(project.regfile().alias_info[1].reg, "rsi");
    assert_eq!(project.regfile().register_id_by_alias(&String::from("A0")), Some(1));
    assert_eq!(project.regfile().register_id_by_alias(&String::from("A1")), Some(2));
    assert_eq!(project.regfile().register_id_by_alias(&String::from("A2")), None);
    assert_eq!(project.regfile().register_id_by_name(&String::from("rip")), Some(3));
    assert!(project.nth_module(0).is_some());
    assert!(project.nth_module(1).is_none());
    assert!(project.nth_module_mut(1).is_none());
    project.nth_module_mut(0).unwrap().name = String::from("renamed");
    assert_eq!(project.modules[0].name, "renamed");
    let mut it = project.iter();
    let first = it.next().unwrap();
    assert_eq!(first.module.name, "renamed");
    assert_eq!(first.project.modules.len(), 1);
    assert!(it.next().is_none());

    let own = ProjectLoader::default()
        .source(SourceRef { backend: &source })
        .module_loader(ModuleLoader::default().source(SourceRef { backend: &other }))
        .load(&IdleEngine)
        .unwrap();
    assert_eq!(keys(&own.modules[0]), vec![0x77]);
}

#[test]
fn strategies_run_in_order_and_may_be_skipped() {
    struct Twice;
    impl PredicatedLoader for Twice {
        fn predicate(&self, x: &FLResult) -> bool {
            x.new_count() > 0
        }

        fn strategy(&self, _source: Option<SourceRef>, last: &FLResult, _rmod: &RadecoModule) -> FLResult {
            let mut fl = FLResult::new();
            if last.contains(0x10) {
                fl.insert(String::from("again"), 0x10, 99);
            }
            fl.insert(String::from("fresh"), 0x90, 1);
            fl
        }
    }
    let twice = Twice;
    let mut rmod = RadecoModule::new(String::from("m"));
    rmod.symbols = vec![func_symbol("a", 0x10, 4)];

    let mut skipped = FunctionLoader::default().strategy(&twice);
    let found = skipped.load(&rmod);
    assert_eq!(found.new_count(), 0);
    assert!(found.functions().is_empty());

    let mut both = FunctionLoader::default().include_defaults().strategy(&twice);
    let found = both.load(&rmod);
    assert_eq!(found.new_count(), 4);
    let functions = found.into_functions();
    assert_eq!(functions.keys().copied().collect::<Vec<u64>>(), vec![0x10, 0x90]);
    assert_eq!(functions[&0x10].name, "again");
    assert_eq!(functions[&0x10].size, 99);
    assert_eq!(functions[&0x90].name, "fresh");
}

#[test]
fn functions_of_the_symbol_table_stay_without_a_filter() {
    struct Elsewhere;
    impl PredicatedLoader for Elsewhere {
        fn strategy(&self, _source: Option<SourceRef>, _last: &FLResult, _rmod: &RadecoModule) -> FLResult {
            let mut fl = FLResult::new();
            fl.insert(String::from("other"), 0x10, 1);
            fl.insert(String::from("more"), 0x900, 1);
            fl
        }
    }
    let source = FixedSource {
        symbols: Some(vec![func_symbol("a", 0x30, 4), func_symbol("b", 0x10, 4)]),
        functions: Some(vec![listed("c", 0x50, 4)]),
        regs: Some(x86_profile()),
        ..FixedSource::default()
    };
    let elsewhere = Elsewhere;
    let floader = FunctionLoader::default().strategy(&elsewhere).include_defaults().strategy(&elsewhere);
    let mut loader = ModuleLoader::default().function_loader(floader).build_callgraph();
    let rmod = loader.load(SourceRef { backend: &source }, &IdleEngine).unwrap();
    assert_eq!(keys(&rmod), vec![0x10, 0x30, 0x50, 0x900]);
    assert_eq!(rmod.functions[&0x10].name, "other");
    assert_eq!(rmod.functions[&0x30].name, "a");
    assert_eq!(rmod.callgraph.node_count(), 1);
    assert_eq!(rmod.callgraph.node_weight(NodeIndex::new(0)), Some(0x50));
    assert_eq!(rmod.functions[&0x50].cgid(), NodeIndex::new(0));
    assert_eq!(rmod.functions[&0x10].cgid(), NodeIndex::new(0));
    assert_eq!(rmod.functions[&0x900].cgid(), NodeIndex::default());
}

#[test]
fn a_project_is_not_loaded_without_the_register_profile_at_its_own_backend() {
    let with_profile = two_functions_and_an_import();
    let without = FixedSource { symbols: Some(Vec::new()), ..FixedSource::default() };
    let loaded = ProjectLoader::default()
        .source(SourceRef { backend: &without })
        .module_loader(ModuleLoader::default().source(SourceRef { backend: &with_profile }))
        .load(&IdleEngine);
    assert_eq!(loaded.err(), Some(LoadError::NoRegisterProfile));
}
