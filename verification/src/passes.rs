//! The steps of loading a module, each on the part of the module that it changes.

use vstd::prelude::*;
use std::collections::BTreeMap;
use std::collections::HashMap;
use crate::bindings::{arguments_lead, inferred};
use crate::function::RadecoFunction;
use crate::imports::ImportInfo;
use crate::index::NodeIndex;
use crate::keys::{btree_keys, hash_keys};
use crate::mloader::{FunctionFilter, LoadError, ModuleLoader};
use crate::module::RadecoModule;
use crate::regfile::{RegisterFileView, SubRegisterFile};
use crate::source::{FunctionInfo, LOpInfo, LRegInfo, Source, SourceErr};
use crate::ssa::{SSAConstruct, SSAStorage};

verus! {

/// The start addresses of the functions of `functions` that `filter` keeps, in increasing
/// order.
pub fn kept_addresses(functions: &BTreeMap<u64, RadecoFunction>, filter: &dyn FunctionFilter) -> (r:
    Vec<u64>)
    ensures
        forall|i: int| 0 <= i < r@.len() ==> functions@.contains_key(#[trigger] r@[i]),
        forall|i: int, j: int| 0 <= i < j < r@.len() ==> r@[i] < r@[j],
{
    let ks = btree_keys(functions);
    let mut answers: Vec<bool> = Vec::new();
    let mut i: usize = 0;
    while i < ks.len()
        invariant
            i <= ks@.len(),
            answers@.len() == i,
        decreases ks@.len() - i,
    {
        let keep = match functions.get(&ks[i]) {
            Some(rfn) => filter.keep(rfn),
            None => false,
        };
        answers.push(keep);
        i = i + 1;
    }
    let r = select_kept(&ks, &answers);
    proof {
        assert forall|i: int| 0 <= i < r@.len() implies functions@.contains_key(
            #[trigger] r@[i],
        ) by {
            assert(r@.contains(r@[i]));
            assert(ks@.contains(r@[i]));
            assert(ks@.to_set().contains(r@[i]));
        }
    }
    r
}

/// The functions of `functions` whose start address is among `keep`.
pub fn restrict_functions(functions: BTreeMap<u64, RadecoFunction>, keep: &Vec<u64>) -> (r:
    BTreeMap<u64, RadecoFunction>)
    ensures
        r@ == functions@.restrict(keep@.to_set()),
{
    let mut src = functions;
    let mut r: BTreeMap<u64, RadecoFunction> = BTreeMap::new();
    let mut i: usize = 0;
    assert(keep@.take(0) =~= Seq::empty());
    assert(r@ =~= functions@.restrict(keep@.take(0).to_set()));
    assert(src@ =~= functions@.remove_keys(keep@.take(0).to_set()));
    while i < keep.len()
        invariant
            i <= keep@.len(),
            r@ == functions@.restrict(keep@.take(i as int).to_set()),
            src@ == functions@.remove_keys(keep@.take(i as int).to_set()),
        decreases keep@.len() - i,
    {
        let k = keep[i];
        let ghost before = keep@.take(i as int).to_set();
        proof {
            assert(keep@.take(i + 1) =~= keep@.take(i as int).push(k));
            assert(keep@.take(i + 1).to_set() =~= before.insert(k)) by {
                assert forall|a: u64| keep@.take(i + 1).to_set().contains(a) <==> before.insert(
                    k,
                ).contains(a) by {
                    if keep@.take(i as int).contains(a) {
                        let j = keep@.take(i as int).index_of(a);
                        assert(keep@.take(i + 1)[j] == a);
                    }
                    if a == k {
                        assert(keep@.take(i + 1)[i as int] == a);
                    }
                    if keep@.take(i + 1).contains(a) {
                        let j = keep@.take(i + 1).index_of(a);
                        if j < i {
                            assert(keep@.take(i as int)[j] == a);
                        }
                    }
                }
            }
        }
        match src.remove(&k) {
            Some(rfn) => {
                r.insert(k, rfn);
            },
            None => {},
        }
        proof {
            assert(r@ =~= functions@.restrict(before.insert(k)));
            assert(src@ =~= functions@.remove_keys(before.insert(k)));
        }
        i = i + 1;
    }
    assert(keep@.take(i as int) =~= keep@);
    r
}

/// The functions of `functions` that `filter` keeps.
pub fn retain_functions(functions: BTreeMap<u64, RadecoFunction>, filter: &dyn FunctionFilter) -> (r:
    BTreeMap<u64, RadecoFunction>)
    ensures
        r@.submap_of(functions@),
{
    let keep = kept_addresses(&functions, filter);
    restrict_functions(functions, &keep)
}

/// `cur` has an entry wherever `start` has one; the entries at the addresses in `done` are
/// related by `rel` to those of `start`, the others are as they were.
pub open spec fn reworked<V>(
    start: Map<u64, V>,
    cur: Map<u64, V>,
    done: Seq<u64>,
    rel: spec_fn(V, V) -> bool,
) -> bool {
    &&& cur.dom() == start.dom()
    &&& forall|k: u64| #[trigger]
        cur.contains_key(k) ==> if done.contains(k) {
            rel(start[k], cur[k])
        } else {
            cur[k] == start[k]
        }
}

/// Going on from `reworked` at `i` to `i + 1`, after the entry at `ks[i]` was replaced by one
/// that `rel` relates to it.
proof fn lemma_reworked_step<V>(
    start: Map<u64, V>,
    before: Map<u64, V>,
    ks: Seq<u64>,
    i: int,
    rfn: V,
    rel: spec_fn(V, V) -> bool,
)
    requires
        0 <= i < ks.len(),
        ks.no_duplicates(),
        reworked(start, before, ks.take(i), rel),
        before.contains_key(ks[i]),
        rel(before[ks[i]], rfn),
    ensures
        reworked(start, before.insert(ks[i], rfn), ks.take(i + 1), rel),
{
    let after = before.insert(ks[i], rfn);
    let k0 = ks[i];
    assert(after.dom() =~= start.dom());
    if ks.take(i).contains(k0) {
        let j = ks.take(i).index_of(k0);
        assert(ks[j] == ks[i]);
    }
    assert(ks.take(i + 1) =~= ks.take(i).push(k0));
    assert forall|k: u64| #[trigger] after.contains_key(k) implies if ks.take(i + 1).contains(k) {
        rel(start[k], after[k])
    } else {
        after[k] == start[k]
    } by {
        if k == k0 {
            assert(ks.take(i + 1)[i] == k0);
        } else {
            assert(before.contains_key(k));
            if ks.take(i).contains(k) {
                let j = ks.take(i).index_of(k);
                assert(ks.take(i + 1)[j] == k);
            }
            if ks.take(i + 1).contains(k) {
                let j = ks.take(i + 1).index_of(k);
                assert(j != i);
                assert(ks.take(i)[j] == k);
            }
        }
    }
}

/// Once every address has been taken, every entry is related by `rel` to the one it was.
proof fn lemma_reworked_all<V>(
    start: Map<u64, V>,
    cur: Map<u64, V>,
    ks: Seq<u64>,
    rel: spec_fn(V, V) -> bool,
)
    requires
        ks.to_set() == start.dom(),
        reworked(start, cur, ks, rel),
    ensures
        cur.dom() == start.dom(),
        forall|k: u64| #[trigger] cur.contains_key(k) ==> rel(start[k], cur[k]),
{
    assert forall|k: u64| #[trigger] cur.contains_key(k) implies rel(start[k], cur[k]) by {
        assert(ks.to_set().contains(k));
    }
}

/// `f` with the instructions that the backend answered; with none, if it gave no answer.
pub open spec fn with_instructions(f: RadecoFunction, cur: RadecoFunction, answer: Result<
    Vec<LOpInfo>,
    SourceErr,
>) -> bool {
    &&& cur == (RadecoFunction { instructions: cur.instructions, ..f })
    &&& cur.instructions@ == match answer {
        Ok(ops) => ops@,
        Err(_) => Seq::empty(),
    }
}

/// Gives `rfn` the instructions that the backend answered; none, if it gave no answer.
pub fn set_instructions(rfn: &mut RadecoFunction, answer: Result<Vec<LOpInfo>, SourceErr>)
    ensures
        with_instructions(*old(rfn), *final(rfn), answer),
{
    rfn.instructions = match answer {
        Ok(ops) => ops,
        Err(_) => Vec::new(),
    };
}

/// Fetches the instructions of each function from the backend. Where the backend fails, the
/// function is left without instructions.
pub fn disassemble(functions: &mut BTreeMap<u64, RadecoFunction>, source: &dyn Source)
    ensures
        final(functions)@.dom() == old(functions)@.dom(),
        forall|k: u64| #[trigger]
            final(functions)@.contains_key(k) ==> final(functions)@[k] == (RadecoFunction {
                instructions: final(functions)@[k].instructions,
                ..old(functions)@[k]
            }),
{
    let ks = btree_keys(functions);
    let ghost start = functions@;
    let ghost rel = |a: RadecoFunction, b: RadecoFunction|
        b == (RadecoFunction { instructions: b.instructions, ..a });
    let mut i: usize = 0;
    assert(ks@.take(0) =~= Seq::empty());
    while i < ks.len()
        invariant
            i <= ks@.len(),
            ks@.no_duplicates(),
            ks@.to_set() == start.dom(),
            rel == |a: RadecoFunction, b: RadecoFunction|
                b == (RadecoFunction { instructions: b.instructions, ..a }),
            reworked(start, functions@, ks@.take(i as int), rel),
        decreases ks@.len() - i,
    {
        let k = ks[i];
        assert(ks@.to_set().contains(ks@[i as int]));
        let ghost before = functions@;
        match functions.remove(&k) {
            Some(rfn) => {
                let mut rfn = rfn;
                let answer = source.disassemble_n_bytes(rfn.size, rfn.offset);
                set_instructions(&mut rfn, answer);
                functions.insert(k, rfn);
                proof {
                    lemma_reworked_step(start, before, ks@, i as int, rfn, rel);
                    assert(functions@ =~= before.insert(k, rfn));
                }
            },
            None => {
                assert(false);
            },
        }
        i = i + 1;
    }
    proof {
        assert(ks@.take(i as int) =~= ks@);
        lemma_reworked_all(start, functions@, ks@, rel);
    }
}

/// `f` with the SSA form `ssa`.
pub open spec fn with_ssa(f: RadecoFunction, ssa: SSAStorage) -> RadecoFunction {
    RadecoFunction { ssa: ssa, ..f }
}

/// Gives the function at `offset` the SSA form `ssa`. Returns whether there is such a
/// function; if not, nothing changes.
pub fn install_ssa(functions: &mut BTreeMap<u64, RadecoFunction>, offset: u64, ssa: SSAStorage)
    -> (done: bool)
    ensures
        done == old(functions)@.contains_key(offset),
        final(functions)@ == if done {
            old(functions)@.insert(offset, with_ssa(old(functions)@[offset], ssa))
        } else {
            old(functions)@
        },
{
    match functions.remove(&offset) {
        Some(rfn) => {
            let mut rfn = rfn;
            rfn.ssa = ssa;
            functions.insert(offset, rfn);
            assert(functions@ =~= old(functions)@.insert(
                offset,
                with_ssa(old(functions)@[offset], ssa),
            ));
            true
        },
        None => {
            assert(functions@ =~= old(functions)@);
            false
        },
    }
}

/// The SSA forms of two different functions can be installed in either order: the functions
/// end up the same.
pub proof fn lemma_install_order(
    functions: Map<u64, RadecoFunction>,
    a: u64,
    ssa_a: SSAStorage,
    b: u64,
    ssa_b: SSAStorage,
)
    requires
        a != b,
        functions.contains_key(a),
        functions.contains_key(b),
    ensures
        functions.insert(a, with_ssa(functions[a], ssa_a)).insert(b, with_ssa(functions[b], ssa_b))
            == functions.insert(b, with_ssa(functions[b], ssa_b)).insert(
            a,
            with_ssa(functions[a], ssa_a),
        ),
{
    assert(functions.insert(a, with_ssa(functions[a], ssa_a)).insert(
        b,
        with_ssa(functions[b], ssa_b),
    ) =~= functions.insert(b, with_ssa(functions[b], ssa_b)).insert(
        a,
        with_ssa(functions[a], ssa_a),
    ));
}

/// Has the engine build the SSA form of each function, one after the other.
pub fn construct_ssa(
    functions: &mut BTreeMap<u64, RadecoFunction>,
    engine: &dyn SSAConstruct,
    reg_p: &LRegInfo,
    assume_cc: bool,
)
    ensures
        final(functions)@.dom() == old(functions)@.dom(),
        forall|k: u64| #[trigger]
            final(functions)@.contains_key(k) ==> final(functions)@[k] == with_ssa(
                old(functions)@[k],
                final(functions)@[k].ssa,
            ),
{
    let ks = btree_keys(functions);
    let ghost start = functions@;
    let ghost rel = |a: RadecoFunction, b: RadecoFunction| b == with_ssa(a, b.ssa);
    let mut i: usize = 0;
    assert(ks@.take(0) =~= Seq::empty());
    while i < ks.len()
        invariant
            i <= ks@.len(),
            ks@.no_duplicates(),
            ks@.to_set() == start.dom(),
            rel == |a: RadecoFunction, b: RadecoFunction| b == with_ssa(a, b.ssa),
            reworked(start, functions@, ks@.take(i as int), rel),
        decreases ks@.len() - i,
    {
        let k = ks[i];
        assert(ks@.to_set().contains(ks@[i as int]));
        let ghost before = functions@;
        let built = match functions.get(&k) {
            Some(rfn) => Some(engine.construct(rfn, reg_p, assume_cc)),
            None => None,
        };
        match built {
            Some(ssa) => {
                install_ssa(functions, k, ssa);
                proof {
                    lemma_reworked_step(start, before, ks@, i as int, functions@[k], rel);
                    assert(functions@ =~= before.insert(k, functions@[k]));
                }
            },
            None => {
                assert(false);
            },
        }
        i = i + 1;
    }
    proof {
        assert(ks@.take(i as int) =~= ks@);
        lemma_reworked_all(start, functions@, ks@, rel);
    }
}

/// Has the engine build the SSA form of the stub of each import.
pub fn construct_import_ssa(
    imports: &mut HashMap<u64, ImportInfo>,
    engine: &dyn SSAConstruct,
    reg_p: &LRegInfo,
    assume_cc: bool,
)
    ensures
        final(imports)@.dom() == old(imports)@.dom(),
        forall|k: u64| #[trigger]
            final(imports)@.contains_key(k) ==> final(imports)@[k] == (ImportInfo {
                rfn: with_ssa(old(imports)@[k].rfn, final(imports)@[k].rfn.ssa),
                ..old(imports)@[k]
            }),
{
    broadcast use vstd::std_specs::hash::group_hash_axioms;

    let ks = hash_keys(imports);
    let ghost start = imports@;
    let ghost rel = |a: ImportInfo, b: ImportInfo|
        b == (ImportInfo { rfn: with_ssa(a.rfn, b.rfn.ssa), ..a });
    let mut i: usize = 0;
    assert(ks@.take(0) =~= Seq::empty());
    while i < ks.len()
        invariant
            i <= ks@.len(),
            ks@.no_duplicates(),
            ks@.to_set() == start.dom(),
            rel == |a: ImportInfo, b: ImportInfo|
                b == (ImportInfo { rfn: with_ssa(a.rfn, b.rfn.ssa), ..a }),
            reworked(start, imports@, ks@.take(i as int), rel),
        decreases ks@.len() - i,
    {
        let k = ks[i];
        assert(ks@.to_set().contains(ks@[i as int]));
        let ghost before = imports@;
        let built = match imports.get(&k) {
            Some(ifn) => Some(engine.construct(&ifn.rfn, reg_p, assume_cc)),
            None => None,
        };
        match built {
            Some(ssa) => {
                install_import_ssa(imports, k, ssa);
                proof {
                    lemma_reworked_step(start, before, ks@, i as int, imports@[k], rel);
                    assert(imports@ =~= before.insert(k, imports@[k]));
                }
            },
            None => {
                assert(false);
            },
        }
        i = i + 1;
    }
    proof {
        assert(ks@.take(i as int) =~= ks@);
        lemma_reworked_all(start, imports@, ks@, rel);
    }
}

/// `f` with the bindings that its register states and `regfile` give rise to.
pub open spec fn is_bound(start: RadecoFunction, cur: RadecoFunction, regfile: RegisterFileView)
    -> bool {
    &&& cur == (RadecoFunction { bindings: cur.bindings, ..start })
    &&& cur.bindings@ == inferred(&start.ssa, regfile)
    &&& arguments_lead(cur.bindings@)
}

/// Sets the bindings of every function from its register states. If the SSA form of one of
/// them lacks these, nothing is changed and the error says so.
pub fn init_bindings(functions: &mut BTreeMap<u64, RadecoFunction>, regfile: &SubRegisterFile)
    -> (r: Result<(), LoadError>)
    ensures
        r is Ok <==> forall|k: u64| #[trigger]
            old(functions)@.contains_key(k) ==> old(functions)@[k].ssa.has_register_states(),
        r is Err ==> r == Err::<(), LoadError>(LoadError::NoRegisterState) && final(functions)@
            == old(functions)@,
        r is Ok ==> {
            &&& final(functions)@.dom() == old(functions)@.dom()
            &&& forall|k: u64| #[trigger]
                final(functions)@.contains_key(k) ==> is_bound(
                    old(functions)@[k],
                    final(functions)@[k],
                    regfile@,
                )
        },
{
    let ks = btree_keys(functions);
    let ghost start = functions@;
    let mut j: usize = 0;
    while j < ks.len()
        invariant
            j <= ks@.len(),
            ks@.to_set() == start.dom(),
            functions@ == start,
            forall|n: int| 0 <= n < j ==> (#[trigger] start[ks@[n]]).ssa.has_register_states(),
        decreases ks@.len() - j,
    {
        assert(ks@.to_set().contains(ks@[j as int]));
        match functions.get(&ks[j]) {
            Some(rfn) => {
                if !ModuleLoader::has_register_states(&rfn.ssa) {
                    return Err(LoadError::NoRegisterState);
                }
            },
            None => {
                assert(false);
            },
        }
        j = j + 1;
    }
    proof {
        assert forall|k: u64| #[trigger] start.contains_key(k) implies start[k].ssa.has_register_states() by {
            assert(ks@.to_set().contains(k));
            let n = ks@.index_of(k);
            assert(start[ks@[n]].ssa.has_register_states());
        }
    }
    let ghost rel = |a: RadecoFunction, b: RadecoFunction| is_bound(a, b, regfile@);
    let mut i: usize = 0;
    assert(ks@.take(0) =~= Seq::empty());
    while i < ks.len()
        invariant
            i <= ks@.len(),
            ks@.no_duplicates(),
            ks@.to_set() == start.dom(),
            forall|k: u64| #[trigger] start.contains_key(k) ==> start[k].ssa.has_register_states(),
            rel == |a: RadecoFunction, b: RadecoFunction| is_bound(a, b, regfile@),
            reworked(start, functions@, ks@.take(i as int), rel),
        decreases ks@.len() - i,
    {
        let k = ks[i];
        assert(ks@.to_set().contains(ks@[i as int]));
        let ghost before = functions@;
        proof {
            if ks@.take(i as int).contains(k) {
                let n = ks@.take(i as int).index_of(k);
                assert(ks@[n] == ks@[i as int]);
            }
            assert(before.contains_key(k));
            assert(before[k] == start[k]);
        }
        match functions.remove(&k) {
            Some(rfn) => {
                let mut rfn = rfn;
                ModuleLoader::init_fn_bindings(&mut rfn, regfile);
                functions.insert(k, rfn);
                proof {
                    lemma_reworked_step(start, before, ks@, i as int, rfn, rel);
                    assert(functions@ =~= before.insert(k, rfn));
                }
            },
            None => {
                assert(false);
            },
        }
        i = i + 1;
    }
    proof {
        assert(ks@.take(i as int) =~= ks@);
        lemma_reworked_all(start, functions@, ks@, rel);
    }
    Ok(())
}

/// Sets the bindings of the stub of every import from its register states. If the SSA form
/// of one of them lacks these, nothing is changed and the error says so.
pub fn init_import_bindings(imports: &mut HashMap<u64, ImportInfo>, regfile: &SubRegisterFile)
    -> (r: Result<(), LoadError>)
    ensures
        r is Ok <==> forall|k: u64| #[trigger]
            old(imports)@.contains_key(k) ==> old(imports)@[k].rfn.ssa.has_register_states(),
        r is Err ==> r == Err::<(), LoadError>(LoadError::NoRegisterState) && final(imports)@
            == old(imports)@,
        r is Ok ==> {
            &&& final(imports)@.dom() == old(imports)@.dom()
            &&& forall|k: u64| #[trigger]
                final(imports)@.contains_key(k) ==> {
                    &&& final(imports)@[k] == (ImportInfo {
                        rfn: final(imports)@[k].rfn,
                        ..old(imports)@[k]
                    })
                    &&& is_bound(old(imports)@[k].rfn, final(imports)@[k].rfn, regfile@)
                }
        },
{
    broadcast use vstd::std_specs::hash::group_hash_axioms;

    let ks = hash_keys(imports);
    let ghost start = imports@;
    let mut j: usize = 0;
    while j < ks.len()
        invariant
            j <= ks@.len(),
            ks@.to_set() == start.dom(),
            imports@ == start,
            forall|n: int| 0 <= n < j ==> (#[trigger] start[ks@[n]]).rfn.ssa.has_register_states(),
        decreases ks@.len() - j,
    {
        assert(ks@.to_set().contains(ks@[j as int]));
        match imports.get(&ks[j]) {
            Some(ifn) => {
                if !ModuleLoader::has_register_states(&ifn.rfn.ssa) {
                    return Err(LoadError::NoRegisterState);
                }
            },
            None => {
                assert(false);
            },
        }
        j = j + 1;
    }
    proof {
        assert forall|k: u64| #[trigger] start.contains_key(k) implies start[k].rfn.ssa.has_register_states() by {
            assert(ks@.to_set().contains(k));
            let n = ks@.index_of(k);
            assert(start[ks@[n]].rfn.ssa.has_register_states());
        }
    }
    let ghost rel = |a: ImportInfo, b: ImportInfo|
        b == (ImportInfo { rfn: b.rfn, ..a }) && is_bound(a.rfn, b.rfn, regfile@);
    let mut i: usize = 0;
    assert(ks@.take(0) =~= Seq::empty());
    while i < ks.len()
        invariant
            i <= ks@.len(),
            ks@.no_duplicates(),
            ks@.to_set() == start.dom(),
            forall|k: u64| #[trigger]
                start.contains_key(k) ==> start[k].rfn.ssa.has_register_states(),
            rel == |a: ImportInfo, b: ImportInfo|
                b == (ImportInfo { rfn: b.rfn, ..a }) && is_bound(a.rfn, b.rfn, regfile@),
            reworked(start, imports@, ks@.take(i as int), rel),
        decreases ks@.len() - i,
    {
        let k = ks[i];
        assert(ks@.to_set().contains(ks@[i as int]));
        let ghost before = imports@;
        proof {
            if ks@.take(i as int).contains(k) {
                let n = ks@.take(i as int).index_of(k);
                assert(ks@[n] == ks@[i as int]);
            }
            assert(before.contains_key(k));
            assert(before[k] == start[k]);
        }
        match imports.remove(&k) {
            Some(ifn) => {
                let mut ifn = ifn;
                ModuleLoader::init_fn_bindings(&mut ifn.rfn, regfile);
                imports.insert(k, ifn);
                proof {
                    lemma_reworked_step(start, before, ks@, i as int, ifn, rel);
                    assert(imports@ =~= before.insert(k, ifn));
                }
            },
            None => {
                assert(false);
            },
        }
        i = i + 1;
    }
    proof {
        assert(ks@.take(i as int) =~= ks@);
        lemma_reworked_all(start, imports@, ks@, rel);
    }
    Ok(())
}

/// The last node of `nodes` that is labelled `addr`, if there is one.
pub open spec fn last_position(nodes: Seq<u64>, addr: u64) -> Option<int>
    decreases nodes.len(),
{
    if nodes.len() == 0 {
        None
    } else if nodes.last() == addr {
        Some(nodes.len() - 1)
    } else {
        last_position(nodes.drop_last(), addr)
    }
}

/// The node recorded for the function or import at `addr` once the nodes have been gone
/// through: the last node labelled `addr`, or, if there is none, what was recorded before.
pub open spec fn cgid_after(nodes: Seq<u64>, addr: u64, before: NodeIndex) -> NodeIndex {
    match last_position(nodes, addr) {
        Some(n) => NodeIndex(n as u32),
        None => before,
    }
}

/// `f` with the call-graph node `cgid`.
pub open spec fn with_cgid(f: RadecoFunction, cgid: NodeIndex) -> RadecoFunction {
    RadecoFunction { cgid: cgid, ..f }
}

/// Where no label occurs twice, the last node labelled like node `n` is `n`.
proof fn lemma_last_position_unique(nodes: Seq<u64>, n: int)
    requires
        nodes.no_duplicates(),
        0 <= n < nodes.len(),
    ensures
        last_position(nodes, nodes[n]) == Some(n),
    decreases nodes.len(),
{
    if nodes.last() != nodes[n] {
        let rest = nodes.drop_last();
        assert(rest[n] == nodes[n]);
        lemma_last_position_unique(rest, n);
    }
}

/// Goes through the nodes of the call graph and records each with the function at the
/// address that labels it, or, if there is no such function, with the stub of the import at
/// that address.
pub fn assign_cgids(rmod: &mut RadecoModule)
    ensures
        *final(rmod) == (RadecoModule {
            functions: final(rmod).functions,
            imports: final(rmod).imports,
            ..*old(rmod)
        }),
        final(rmod).functions@.dom() == old(rmod).functions@.dom(),
        final(rmod).imports@.dom() == old(rmod).imports@.dom(),
        forall|k: u64| #[trigger]
            final(rmod).functions@.contains_key(k) ==> final(rmod).functions@[k] == with_cgid(
                old(rmod).functions@[k],
                cgid_after(old(rmod).callgraph@.nodes, k, old(rmod).functions@[k].cgid),
            ),
        forall|k: u64| #[trigger]
            final(rmod).imports@.contains_key(k) ==> final(rmod).imports@[k] == (ImportInfo {
                rfn: if old(rmod).functions@.contains_key(k) {
                    old(rmod).imports@[k].rfn
                } else {
                    with_cgid(
                        old(rmod).imports@[k].rfn,
                        cgid_after(
                            old(rmod).callgraph@.nodes,
                            k,
                            old(rmod).imports@[k].rfn.cgid,
                        ),
                    )
                },
                ..old(rmod).imports@[k]
            }),
        (old(rmod).callgraph@.nodes.no_duplicates() && forall|n: int|
            0 <= n < old(rmod).callgraph@.nodes.len() ==> old(rmod).knows(
                #[trigger] old(rmod).callgraph@.nodes[n],
            )) ==> final(rmod).graph_wired(),
{
    broadcast use vstd::std_specs::hash::group_hash_axioms;

    let ghost nodes = rmod.callgraph@.nodes;
    let ghost funs = rmod.functions@;
    let ghost imps = rmod.imports@;
    let count = rmod.callgraph.node_count();
    let mut n: usize = 0;
    assert(nodes.take(0) =~= Seq::empty());
    while n < count
        invariant
            n <= count,
            count == nodes.len(),
            count <= u32::MAX,
            nodes == old(rmod).callgraph@.nodes,
            funs == old(rmod).functions@,
            imps == old(rmod).imports@,
            *rmod == (RadecoModule {
                functions: rmod.functions,
                imports: rmod.imports,
                ..*old(rmod)
            }),
            rmod.functions@.dom() == funs.dom(),
            rmod.imports@.dom() == imps.dom(),
            forall|k: u64| #[trigger]
                rmod.functions@.contains_key(k) ==> rmod.functions@[k] == with_cgid(
                    funs[k],
                    cgid_after(nodes.take(n as int), k, funs[k].cgid),
                ),
            forall|k: u64| #[trigger]
                rmod.imports@.contains_key(k) ==> rmod.imports@[k] == (ImportInfo {
                    rfn: if funs.contains_key(k) {
                        imps[k].rfn
                    } else {
                        with_cgid(
                            imps[k].rfn,
                            cgid_after(nodes.take(n as int), k, imps[k].rfn.cgid),
                        )
                    },
                    ..imps[k]
                }),
        decreases count - n,
    {
        let nidx = NodeIndex::new(n);
        proof {
            assert(nodes.take(n + 1).drop_last() =~= nodes.take(n as int));
            assert(nodes.take(n + 1).last() == nodes[n as int]);
        }
        match rmod.callgraph.node_weight(nidx) {
            Some(addr) => {
                let ghost before = rmod.functions@;
                let ghost before_imports = rmod.imports@;
                match rmod.functions.remove(&addr) {
                    Some(rfn) => {
                        let mut rfn = rfn;
                        rfn.cgid = nidx;
                        rmod.functions.insert(addr, rfn);
                        assert(rmod.functions@.dom() =~= funs.dom());
                    },
                    None => {
                        match rmod.imports.remove(&addr) {
                            Some(ifn) => {
                                let mut ifn = ifn;
                                ifn.rfn.cgid = nidx;
                                rmod.imports.insert(addr, ifn);
                                assert(rmod.imports@.dom() =~= imps.dom());
                            },
                            None => {
                                assert(rmod.imports@ =~= before_imports);
                            },
                        }
                        assert(rmod.functions@ =~= before);
                    },
                }
            },
            None => {
                assert(false);
            },
        }
        n = n + 1;
    }
    proof {
        assert(nodes.take(n as int) =~= nodes);
        if nodes.no_duplicates() && forall|n: int|
            0 <= n < nodes.len() ==> old(rmod).knows(#[trigger] nodes[n]) {
            assert forall|n: int| 0 <= n < rmod.callgraph@.nodes.len() implies rmod.knows(
                #[trigger] rmod.callgraph@.nodes[n],
            ) && rmod.cgid_at(rmod.callgraph@.nodes[n]).spec_index() == n by {
                lemma_last_position_unique(nodes, n);
                assert(old(rmod).knows(nodes[n]));
            }
        }
    }
}

/// The data references of the function at `addr` once the backend's function list has been
/// gone through: those of the last entry for that address (none, if that entry gives none),
/// or, if there is no entry for it, what the function had before.
pub open spec fn datarefs_after(aux: Seq<FunctionInfo>, addr: u64, before: Seq<u64>) -> Seq<u64>
    decreases aux.len(),
{
    if aux.len() == 0 {
        before
    } else if aux.last().offset == Some(addr) {
        match aux.last().datarefs {
            Some(d) => d@,
            None => Seq::empty(),
        }
    } else {
        datarefs_after(aux.drop_last(), addr, before)
    }
}

/// Gives each function the data references that the backend's function list has for it.
pub fn copy_datarefs(functions: &mut BTreeMap<u64, RadecoFunction>, aux: &Vec<FunctionInfo>)
    ensures
        final(functions)@.dom() == old(functions)@.dom(),
        forall|k: u64| #[trigger]
            final(functions)@.contains_key(k) ==> {
                &&& final(functions)@[k] == (RadecoFunction {
                    datarefs: final(functions)@[k].datarefs,
                    ..old(functions)@[k]
                })
                &&& final(functions)@[k].datarefs@ == datarefs_after(
                    aux@,
                    k,
                    old(functions)@[k].datarefs@,
                )
            },
{
    let ghost start = functions@;
    let mut i: usize = 0;
    assert(aux@.take(0) =~= Seq::empty());
    while i < aux.len()
        invariant
            i <= aux@.len(),
            functions@.dom() == start.dom(),
            forall|k: u64| #[trigger]
                functions@.contains_key(k) ==> {
                    &&& functions@[k] == (RadecoFunction {
                        datarefs: functions@[k].datarefs,
                        ..start[k]
                    })
                    &&& functions@[k].datarefs@ == datarefs_after(
                        aux@.take(i as int),
                        k,
                        start[k].datarefs@,
                    )
                },
        decreases aux@.len() - i,
    {
        let info = &aux[i];
        proof {
            assert(aux@.take(i + 1).drop_last() =~= aux@.take(i as int));
            assert(aux@.take(i + 1).last() == aux@[i as int]);
        }
        match info.offset {
            Some(offset) => {
                let ghost before = functions@;
                match functions.remove(&offset) {
                    Some(rfn) => {
                        let mut rfn = rfn;
                        rfn.datarefs = match &info.datarefs {
                            Some(d) => copy_addresses(d),
                            None => Vec::new(),
                        };
                        functions.insert(offset, rfn);
                        assert(functions@.dom() =~= start.dom());
                    },
                    None => {
                        assert(functions@ =~= before);
                    },
                }
            },
            None => {},
        }
        i = i + 1;
    }
    assert(aux@.take(i as int) =~= aux@);
}

/// A vector with the same addresses.
pub fn copy_addresses(v: &Vec<u64>) -> (r: Vec<u64>)
    ensures
        r@ == v@,
{
    let mut r: Vec<u64> = Vec::new();
    let mut i: usize = 0;
    while i < v.len()
        invariant
            i <= v@.len(),
            r@ == v@.take(i as int),
        decreases v@.len() - i,
    {
        r.push(v[i]);
        assert(r@ =~= v@.take(i + 1));
        i = i + 1;
    }
    assert(v@.take(i as int) =~= v@);
    r
}

/// Gives the stub of the import at `plt` the SSA form `ssa`. Returns whether there is such an
/// import; if not, nothing changes.
pub fn install_import_ssa(imports: &mut HashMap<u64, ImportInfo>, plt: u64, ssa: SSAStorage) -> (done:
    bool)
    ensures
        done == old(imports)@.contains_key(plt),
        final(imports)@ == if done {
            old(imports)@.insert(
                plt,
                ImportInfo { rfn: with_ssa(old(imports)@[plt].rfn, ssa), ..old(imports)@[plt] },
            )
        } else {
            old(imports)@
        },
{
    broadcast use vstd::std_specs::hash::group_hash_axioms;

    match imports.remove(&plt) {
        Some(ifn) => {
            let mut ifn = ifn;
            ifn.rfn.ssa = ssa;
            imports.insert(plt, ifn);
            assert(imports@ =~= old(imports)@.insert(
                plt,
                ImportInfo { rfn: with_ssa(old(imports)@[plt].rfn, ssa), ..old(imports)@[plt] },
            ));
            true
        },
        None => {
            assert(imports@ =~= old(imports)@);
            false
        },
    }
}

/// The addresses of `keys` at which the answer is yes, in the order of `keys`.
pub open spec fn selected(keys: Seq<u64>, answers: Seq<bool>) -> Seq<u64>
    decreases keys.len(),
{
    if keys.len() == 0 || answers.len() != keys.len() {
        Seq::empty()
    } else {
        let before = selected(keys.drop_last(), answers.drop_last());
        if answers.last() {
            before.push(keys.last())
        } else {
            before
        }
    }
}

/// An address is selected if and only if it is one of `keys` and the answer for it is yes;
/// increasing keys give increasing selected addresses.
proof fn lemma_selected(keys: Seq<u64>, answers: Seq<bool>)
    requires
        keys.len() == answers.len(),
    ensures
        forall|k: u64|
            selected(keys, answers).contains(k) <==> exists|i: int|
                0 <= i < keys.len() && #[trigger] keys[i] == k && answers[i],
        (forall|i: int, j: int| 0 <= i < j < keys.len() ==> keys[i] < keys[j]) ==> {
            &&& forall|i: int, j: int|
                0 <= i < j < selected(keys, answers).len() ==> selected(keys, answers)[i]
                    < selected(keys, answers)[j]
            &&& forall|i: int|
                0 <= i < selected(keys, answers).len() && keys.len() > 0 ==> (#[trigger] selected(
                    keys,
                    answers,
                )[i]) <= keys.last()
        },
    decreases keys.len(),
{
    if keys.len() > 0 {
        let ks = keys.drop_last();
        let ans = answers.drop_last();
        lemma_selected(ks, ans);
        let before = selected(ks, ans);
        let all = selected(keys, answers);
        assert forall|k: u64| all.contains(k) <==> exists|i: int|
            0 <= i < keys.len() && #[trigger] keys[i] == k && answers[i] by {
            if all.contains(k) {
                let j = all.index_of(k);
                if answers.last() && j == before.len() {
                    assert(keys[keys.len() - 1] == k && answers[keys.len() - 1]);
                } else {
                    assert(before[j] == k);
                    assert(before.contains(k));
                    let i = choose|i: int| 0 <= i < ks.len() && #[trigger] ks[i] == k && ans[i];
                    assert(keys[i] == k && answers[i]);
                }
            }
            if exists|i: int| 0 <= i < keys.len() && #[trigger] keys[i] == k && answers[i] {
                let i = choose|i: int| 0 <= i < keys.len() && #[trigger] keys[i] == k && answers[i];
                if i == keys.len() - 1 {
                    assert(all[before.len() as int] == k);
                } else {
                    assert(ks[i] == k && ans[i]);
                    assert(before.contains(k));
                    let j = before.index_of(k);
                    assert(all[j] == k);
                }
            }
        }
        if forall|i: int, j: int| 0 <= i < j < keys.len() ==> keys[i] < keys[j] {
            assert forall|i: int, j: int| 0 <= i < j < ks.len() implies ks[i] < ks[j] by {
                assert(keys[i] < keys[j]);
            }
            assert forall|i: int| 0 <= i < before.len() implies (#[trigger] before[i])
                < keys.last() by {
                if ks.len() > 0 {
                    assert(before[i] <= ks.last());
                    assert(ks.last() == keys[keys.len() - 2]);
                    assert(keys[keys.len() - 2] < keys[keys.len() - 1]);
                }
            }
        }
    }
}

/// The addresses of `keys` for which the filter answered yes, in the order of `keys`;
/// `answers` holds the answer for each key, at the same position.
pub fn select_kept(keys: &Vec<u64>, answers: &Vec<bool>) -> (r: Vec<u64>)
    requires
        keys@.len() == answers@.len(),
    ensures
        r@ == selected(keys@, answers@),
        forall|k: u64|
            r@.contains(k) <==> exists|i: int|
                0 <= i < keys@.len() && #[trigger] keys@[i] == k && answers@[i],
        (forall|i: int, j: int| 0 <= i < j < keys@.len() ==> keys@[i] < keys@[j]) ==> forall|
            i: int,
            j: int,
        | 0 <= i < j < r@.len() ==> r@[i] < r@[j],
{
    let mut r: Vec<u64> = Vec::new();
    let mut i: usize = 0;
    assert(keys@.take(0) =~= Seq::empty());
    while i < keys.len()
        invariant
            i <= keys@.len(),
            keys@.len() == answers@.len(),
            r@ == selected(keys@.take(i as int), answers@.take(i as int)),
        decreases keys@.len() - i,
    {
        proof {
            assert(keys@.take(i + 1).drop_last() =~= keys@.take(i as int));
            assert(answers@.take(i + 1).drop_last() =~= answers@.take(i as int));
            assert(keys@.take(i + 1).last() == keys@[i as int]);
            assert(answers@.take(i + 1).last() == answers@[i as int]);
        }
        if answers[i] {
            r.push(keys[i]);
        }
        i = i + 1;
    }
    proof {
        assert(keys@.take(i as int) =~= keys@);
        assert(answers@.take(i as int) =~= answers@);
        lemma_selected(keys@, answers@);
    }
    r
}

/// The functions after the SSA forms of `items` have been installed one after the other, each
/// at the address that it is paired with.
pub open spec fn installed(functions: Map<u64, RadecoFunction>, items: Seq<(u64, SSAStorage)>)
    -> Map<u64, RadecoFunction>
    decreases items.len(),
{
    if items.len() == 0 {
        functions
    } else {
        let before = installed(functions, items.drop_last());
        let item = items.last();
        if before.contains_key(item.0) {
            before.insert(item.0, with_ssa(before[item.0], item.1))
        } else {
            before
        }
    }
}

/// Do no two of `items` have the same address?
pub open spec fn one_per_address(items: Seq<(u64, SSAStorage)>) -> bool {
    forall|i: int, j: int| 0 <= i < j < items.len() ==> items[i].0 != items[j].0
}

/// Where each address has at most one SSA form to install, installing leaves the functions
/// as they were but for the SSA forms: a function with an item has the SSA form of its item,
/// whatever else was installed before or after; a function without one is as it was.
pub proof fn lemma_installed(functions: Map<u64, RadecoFunction>, items: Seq<(u64, SSAStorage)>)
    requires
        one_per_address(items),
    ensures
        installed(functions, items).dom() == functions.dom(),
        forall|i: int|
            0 <= i < items.len() && functions.contains_key((#[trigger] items[i]).0) ==> installed(
                functions,
                items,
            )[items[i].0] == with_ssa(functions[items[i].0], items[i].1),
        forall|k: u64|
            functions.contains_key(k) && (forall|i: int|
                0 <= i < items.len() ==> (#[trigger] items[i]).0 != k) ==> #[trigger] installed(
                functions,
                items,
            )[k] == functions[k],
    decreases items.len(),
{
    if items.len() > 0 {
        let rest = items.drop_last();
        let item = items.last();
        assert forall|i: int, j: int| 0 <= i < j < rest.len() implies rest[i].0 != rest[j].0 by {
            assert(rest[i] == items[i] && rest[j] == items[j]);
        }
        lemma_installed(functions, rest);
        let before = installed(functions, rest);
        let after = installed(functions, items);
        assert(after.dom() =~= functions.dom());
        assert(forall|i: int| 0 <= i < rest.len() ==> (#[trigger] rest[i]).0 != item.0) by {
            assert forall|i: int| 0 <= i < rest.len() implies (#[trigger] rest[i]).0 != item.0 by {
                assert(rest[i] == items[i]);
                assert(item == items[items.len() - 1]);
            }
        }
        assert forall|i: int|
            0 <= i < items.len() && functions.contains_key((#[trigger] items[i]).0) implies after[items[i].0]
            == with_ssa(functions[items[i].0], items[i].1) by {
            if i < rest.len() {
                assert(rest[i] == items[i]);
                assert(rest[i].0 != item.0);
            } else {
                assert(before[item.0] == functions[item.0]);
            }
        }
        assert forall|k: u64|
            functions.contains_key(k) && (forall|i: int|
                0 <= i < items.len() ==> (#[trigger] items[i]).0 != k) implies #[trigger] after[k]
            == functions[k] by {
            assert(items[items.len() - 1].0 != k);
            assert forall|i: int| 0 <= i < rest.len() implies (#[trigger] rest[i]).0 != k by {
                assert(rest[i] == items[i]);
            }
        }
    }
}

/// The order in which SSA forms are installed does not matter: two runs that install the
/// same SSA forms at the same addresses, each address once, end with the same functions.
pub proof fn lemma_install_any_order(
    functions: Map<u64, RadecoFunction>,
    one: Seq<(u64, SSAStorage)>,
    other: Seq<(u64, SSAStorage)>,
)
    requires
        one_per_address(one),
        one_per_address(other),
        forall|i: int| 0 <= i < one.len() ==> other.contains(#[trigger] one[i]),
        forall|j: int| 0 <= j < other.len() ==> one.contains(#[trigger] other[j]),
    ensures
        installed(functions, one) == installed(functions, other),
{
    lemma_installed(functions, one);
    lemma_installed(functions, other);
    let a = installed(functions, one);
    let b = installed(functions, other);
    assert forall|k: u64| #[trigger] a.contains_key(k) implies a[k] == b[k] by {
        if exists|i: int| 0 <= i < one.len() && (#[trigger] one[i]).0 == k {
            let i = choose|i: int| 0 <= i < one.len() && (#[trigger] one[i]).0 == k;
            assert(other.contains(one[i]));
            let j = other.index_of(one[i]);
            assert(other[j] == one[i]);
            assert(a[one[i].0] == with_ssa(functions[k], one[i].1));
            assert(b[other[j].0] == with_ssa(functions[k], other[j].1));
        } else {
            assert forall|j: int| 0 <= j < other.len() implies (#[trigger] other[j]).0 != k by {
                assert(one.contains(other[j]));
                let i = one.index_of(other[j]);
                assert(one[i] == other[j]);
            }
            assert(a[k] == functions[k]);
            assert(b[k] == functions[k]);
        }
    }
    assert(a =~= b);
}

/// What `construct_ssa` leaves is what installing the SSA forms that it chose gives, in any
/// order: `end` differs from `start` in the SSA forms alone, and `items` pairs every address
/// once with the SSA form that `end` has there.
pub proof fn lemma_constructed_is_installed(
    start: Map<u64, RadecoFunction>,
    end: Map<u64, RadecoFunction>,
    items: Seq<(u64, SSAStorage)>,
)
    requires
        end.dom() == start.dom(),
        forall|k: u64| #[trigger] end.contains_key(k) ==> end[k] == with_ssa(start[k], end[k].ssa),
        one_per_address(items),
        forall|i: int|
            0 <= i < items.len() ==> end.contains_key((#[trigger] items[i]).0) && items[i].1
                == end[items[i].0].ssa,
        forall|k: u64| #[trigger]
            end.contains_key(k) ==> exists|i: int| 0 <= i < items.len() && (#[trigger] items[i]).0 == k,
    ensures
        installed(start, items) == end,
{
    lemma_installed(start, items);
    let got = installed(start, items);
    assert forall|k: u64| #[trigger] got.contains_key(k) implies got[k] == end[k] by {
        assert(end.contains_key(k));
        let i = choose|i: int| 0 <= i < items.len() && (#[trigger] items[i]).0 == k;
        assert(got[items[i].0] == with_ssa(start[k], items[i].1));
    }
    assert(got =~= end);
}

} // verus!
