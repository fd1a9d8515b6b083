//! The strategies of function identification that are always at hand.

use vstd::prelude::*;
use crate::floader::{counted, nothing_identified, FLResult, FLResultView};
use crate::module::RadecoModule;
use crate::source::{FunctionInfo, LSymbolInfo, LSymbolType, SourceErr, SourceRef};

verus! {

/// Does the symbol stand for a function and give a name, an address and a size?
pub open spec fn is_function_symbol(s: LSymbolInfo) -> bool {
    &&& s.stype == Some(LSymbolType::Func)
    &&& s.name is Some
    &&& s.vaddr is Some
    &&& s.size is Some
}

/// What the symbols identify, taken in order: each function symbol a function at its
/// address, a later one replacing an earlier one at the same address. Other symbols, and
/// function symbols that lack a name, an address or a size, are passed over.
pub open spec fn identified_by_symbols(symbols: Seq<LSymbolInfo>) -> FLResultView
    decreases symbols.len(),
{
    if symbols.len() == 0 {
        nothing_identified()
    } else {
        let before = identified_by_symbols(symbols.drop_last());
        let s = symbols.last();
        if is_function_symbol(s) {
            FLResultView {
                functions: before.functions.insert(s.vaddr.unwrap(), (s.name.unwrap()@, s.size.unwrap())),
                new: counted(before.new, 1),
            }
        } else {
            before
        }
    }
}

/// Does the entry give a name, an address and a size?
pub open spec fn is_listed_function(f: FunctionInfo) -> bool {
    &&& f.name is Some
    &&& f.offset is Some
    &&& f.size is Some
}

/// What a function list of the backend identifies, taken in order: each entry a function at
/// its address, a later one replacing an earlier one at the same address. Entries that lack a
/// name, an address or a size are passed over.
pub open spec fn identified_by_listing(infos: Seq<FunctionInfo>) -> FLResultView
    decreases infos.len(),
{
    if infos.len() == 0 {
        nothing_identified()
    } else {
        let before = identified_by_listing(infos.drop_last());
        let f = infos.last();
        if is_listed_function(f) {
            FLResultView {
                functions: before.functions.insert(f.offset.unwrap(), (f.name.unwrap()@, f.size.unwrap())),
                new: counted(before.new, 1),
            }
        } else {
            before
        }
    }
}

/// The functions that a symbol table identifies.
pub fn functions_of_symbols(symbols: &Vec<LSymbolInfo>) -> (r: FLResult)
    ensures
        r@ == identified_by_symbols(symbols@),
{
    let mut acc = FLResult::new();
    let mut i: usize = 0;
    assert(symbols@.take(0) =~= Seq::empty());
    while i < symbols.len()
        invariant
            i <= symbols@.len(),
            acc@ == identified_by_symbols(symbols@.take(i as int)),
        decreases symbols@.len() - i,
    {
        let s = &symbols[i];
        proof {
            assert(symbols@.take(i + 1).drop_last() =~= symbols@.take(i as int));
            assert(symbols@.take(i + 1).last() == symbols@[i as int]);
        }
        let is_func = match s.stype {
            Some(LSymbolType::Func) => true,
            _ => false,
        };
        if is_func {
            match (&s.name, s.vaddr, s.size) {
                (Some(name), Some(vaddr), Some(size)) => {
                    acc.insert(name.clone(), vaddr, size);
                },
                _ => {},
            }
        }
        i = i + 1;
    }
    assert(symbols@.take(i as int) =~= symbols@);
    acc
}

/// The functions that a function list of the backend identifies.
pub fn functions_of_listing(infos: &Vec<FunctionInfo>) -> (r: FLResult)
    ensures
        r@ == identified_by_listing(infos@),
{
    let mut acc = FLResult::new();
    let mut i: usize = 0;
    assert(infos@.take(0) =~= Seq::empty());
    while i < infos.len()
        invariant
            i <= infos@.len(),
            acc@ == identified_by_listing(infos@.take(i as int)),
        decreases infos@.len() - i,
    {
        let f = &infos[i];
        proof {
            assert(infos@.take(i + 1).drop_last() =~= infos@.take(i as int));
            assert(infos@.take(i + 1).last() == infos@[i as int]);
        }
        match (&f.name, f.offset, f.size) {
            (Some(name), Some(offset), Some(size)) => {
                acc.insert(name.clone(), offset, size);
            },
            _ => {},
        }
        i = i + 1;
    }
    assert(infos@.take(i as int) =~= infos@);
    acc
}

/// Identifies functions from the symbol table of the module.
pub fn strat_use_symbols(source: Option<SourceRef>, fl: &FLResult, rmod: &RadecoModule) -> (r:
    FLResult)
    ensures
        r@ == identified_by_symbols(rmod.symbols@),
{
    functions_of_symbols(&rmod.symbols)
}

/// Identifies functions from the backend's own analysis. Without a backend, what was
/// identified so far is handed on; with one that does not answer, nothing is identified.
pub fn strat_use_source(source: Option<SourceRef>, fl: &FLResult, rmod: &RadecoModule) -> (r:
    FLResult)
    ensures
        source is None ==> r@ == fl@,
{
    match source {
        Some(src) => functions_of_answer(src.backend.functions()),
        None => fl.clone(),
    }
}

/// The functions that the backend's answer identifies: those of its function list, or none
/// if it gave no list.
pub fn functions_of_answer(answer: Result<Vec<FunctionInfo>, SourceErr>) -> (r: FLResult)
    ensures
        r@ == match answer {
            Ok(functions) => identified_by_listing(functions@),
            Err(_) => nothing_identified(),
        },
{
    match answer {
        Ok(functions) => functions_of_listing(&functions),
        Err(_) => FLResult::new(),
    }
}

} // verus!
