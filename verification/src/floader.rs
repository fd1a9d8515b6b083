//! Identifying the functions of a module: a list of strategies, each of which proposes
//! functions, and the record in which their proposals are gathered.

use vstd::prelude::*;
use std::collections::BTreeMap;
use crate::function::RadecoFunction;
use crate::keys::btree_keys;
use crate::loader_defaults::{identified_by_symbols, strat_use_source, strat_use_symbols};
use crate::module::RadecoModule;
use crate::source::{LSymbolInfo, SourceRef};

verus! {

/// The value of an `FLResult`: for each start address the name and size of the function
/// identified there, and the number of identifications made.
pub struct FLResultView {
    pub functions: Map<u64, (Seq<char>, u64)>,
    pub new: u32,
}

/// Functions identified so far. Each is filed under its start address, and nothing but its
/// name, start address and size is set.
pub struct FLResult {
    functions: BTreeMap<u64, RadecoFunction>,
    new: u32,
}

impl View for FLResult {
    type V = FLResultView;

    closed spec fn view(&self) -> FLResultView {
        FLResultView {
            functions: Map::new(
                |k: u64| self.functions@.contains_key(k),
                |k: u64| (self.functions@[k].name@, self.functions@[k].size),
            ),
            new: self.new,
        }
    }
}

/// The sum of two counts, which starts again from 0 after `u32::MAX`.
pub open spec fn counted(a: u32, b: u32) -> u32 {
    if a + b > u32::MAX {
        (a + b - 0x1_0000_0000) as u32
    } else {
        (a + b) as u32
    }
}

/// The sum of two counts, which starts again from 0 after `u32::MAX`.
pub fn add_counts(a: u32, b: u32) -> (r: u32)
    ensures
        r == counted(a, b),
{
    if a <= u32::MAX - b {
        a + b
    } else {
        a - (u32::MAX - b) - 1
    }
}

/// The record of no identification.
pub open spec fn nothing_identified() -> FLResultView {
    FLResultView { functions: Map::empty(), new: 0 }
}

/// What `acc` becomes when the proposals `fl` of a later strategy are added: where both
/// identify a function at one address, the later one stands; the counts add up.
pub open spec fn merged(acc: FLResultView, fl: FLResultView) -> FLResultView {
    FLResultView {
        functions: acc.functions.union_prefer_right(fl.functions),
        new: counted(acc.new, fl.new),
    }
}

/// `functions` holds the functions that `v` describes: one at each address of `v`, with the
/// name and size given there and nothing else set.
pub open spec fn holds_identified(
    functions: Map<u64, RadecoFunction>,
    v: Map<u64, (Seq<char>, u64)>,
) -> bool {
    &&& functions.dom() == v.dom()
    &&& forall|k: u64| #[trigger]
        functions.contains_key(k) ==> functions[k].is_identified(v[k].0, k, v[k].1)
}

impl FLResult {
    #[verifier::type_invariant]
    closed spec fn identified_only(&self) -> bool {
        forall|k: u64| #[trigger]
            self.functions@.contains_key(k) ==> {
                &&& self.functions@[k].offset == k
                &&& self.functions@[k].is_untouched()
            }
    }

    /// The record of no identification.
    pub fn new() -> (r: FLResult)
        ensures
            r@ == nothing_identified(),
    {
        let r = FLResult { functions: BTreeMap::new(), new: 0 };
        assert(r@.functions =~= Map::empty());
        r
    }

    /// Records that a function called `name` of `size` bytes starts at `offset`. What was
    /// recorded at that address before is replaced.
    pub fn insert(&mut self, name: String, offset: u64, size: u64)
        ensures
            final(self)@.functions == old(self)@.functions.insert(offset, (name@, size)),
            final(self)@.new == counted(old(self)@.new, 1),
    {
        proof {
            use_type_invariant(&*self);
        }
        let rfn = RadecoFunction::identified(name, offset, size);
        let mut functions = BTreeMap::new();
        std::mem::swap(&mut functions, &mut self.functions);
        functions.insert(offset, rfn);
        let new = add_counts(self.new, 1);
        *self = FLResult { functions: functions, new: new };
        assert(self@.functions =~= old(self)@.functions.insert(offset, (name@, size)));
    }

    /// Number of identifications made.
    pub fn new_count(&self) -> (r: u32)
        ensures
            r == self@.new,
    {
        self.new
    }

    /// Was a function identified at `offset`?
    pub fn contains(&self, offset: u64) -> (r: bool)
        ensures
            r == self@.functions.contains_key(offset),
    {
        self.functions.contains_key(&offset)
    }

    /// The functions identified, by start address.
    pub fn functions(&self) -> (r: &BTreeMap<u64, RadecoFunction>)
        ensures
            holds_identified(r@, self@.functions),
    {
        proof {
            use_type_invariant(self);
            assert(self.functions@.dom() =~= self@.functions.dom());
        }
        &self.functions
    }

    /// The functions identified, by start address.
    pub fn into_functions(self) -> (r: BTreeMap<u64, RadecoFunction>)
        ensures
            holds_identified(r@, self@.functions),
    {
        proof {
            use_type_invariant(&self);
            assert(self.functions@.dom() =~= self@.functions.dom());
        }
        self.functions
    }

    /// Adds the proposals `fl` of a later strategy.
    pub fn merge(&mut self, fl: FLResult)
        ensures
            final(self)@ == merged(old(self)@, fl@),
    {
        proof {
            use_type_invariant(&*self);
            use_type_invariant(&fl);
        }
        let new = add_counts(self.new, fl.new);
        let mut src = fl.functions;
        let mut acc = BTreeMap::new();
        std::mem::swap(&mut acc, &mut self.functions);
        let ghost acc0 = acc@;
        let ghost src0 = src@;
        let ks = btree_keys(&src);
        let mut i: usize = 0;
        while i < ks.len()
            invariant
                i <= ks@.len(),
                ks@.to_set() == src0.dom(),
                ks@.no_duplicates(),
                forall|k: u64| #[trigger]
                    src@.contains_key(k) <==> (src0.contains_key(k) && !ks@.take(
                        i as int,
                    ).contains(k)),
                forall|k: u64| #[trigger] src@.contains_key(k) ==> src@[k] == src0[k],
                forall|k: u64| #[trigger]
                    acc@.contains_key(k) <==> (acc0.contains_key(k) || ks@.take(i as int).contains(
                        k,
                    )),
                forall|k: u64| #[trigger]
                    acc@.contains_key(k) ==> acc@[k] == if ks@.take(i as int).contains(k) {
                        src0[k]
                    } else {
                        acc0[k]
                    },
            decreases ks@.len() - i,
        {
            let k = ks[i];
            proof {
                assert(ks@.to_set().contains(ks@[i as int]));
                assert(ks@.take(i + 1) =~= ks@.take(i as int).push(k));
                assert forall|a: u64| ks@.take(i + 1).contains(a) <==> (ks@.take(i as int).contains(
                    a,
                ) || a == k) by {
                    if ks@.take(i as int).contains(a) {
                        let j = ks@.take(i as int).index_of(a);
                        assert(ks@.take(i + 1)[j] == a);
                    }
                    if a == k {
                        assert(ks@.take(i + 1)[i as int] == a);
                    }
                }
                if ks@.take(i as int).contains(k) {
                    let j = ks@.take(i as int).index_of(k);
                    assert(ks@[j] == ks@[i as int]);
                }
            }
            match src.remove(&k) {
                Some(rfn) => {
                    acc.insert(k, rfn);
                },
                None => {
                    assert(false);
                },
            }
            i = i + 1;
        }
        proof {
            assert(ks@.take(i as int) =~= ks@);
            assert forall|k: u64| src0.contains_key(k) <==> ks@.contains(k) by {
                assert(ks@.to_set().contains(k) <==> ks@.contains(k));
            }
            assert(acc@ =~= acc0.union_prefer_right(src0));
        }
        *self = FLResult { functions: acc, new: new };
        assert(self@.functions =~= merged(old(self)@, fl@).functions);
    }

    /// Goes on from what a strategy answered: with a proposal, it is merged in; without one,
    /// because the predicate of the strategy refused, the record stays as it is.
    pub fn merge_if(&mut self, proposal: Option<FLResult>)
        ensures
            final(self)@ == match proposal {
                Some(fl) => merged(old(self)@, fl@),
                None => old(self)@,
            },
    {
        match proposal {
            Some(fl) => {
                self.merge(fl);
            },
            None => {},
        }
    }
}

impl Clone for FLResult {
    fn clone(&self) -> (r: FLResult)
        ensures
            r@ == self@,
    {
        proof {
            use_type_invariant(self);
        }
        FLResult { functions: self.functions.clone(), new: self.new }
    }
}

impl Default for FLResult {
    fn default() -> (r: FLResult)
        ensures
            r@ == nothing_identified(),
    {
        FLResult::new()
    }
}

/// Running two strategies in a row gives what the first proposed, extended by what the second
/// proposed: an address of the second has the second's function, any other address of the
/// first has the first's, and there is nothing else.
pub proof fn lemma_pipeline_composition(first: FLResultView, second: FLResultView)
    ensures
        merged(merged(nothing_identified(), first), second).functions
            == first.functions.union_prefer_right(second.functions),
        forall|k: u64| #[trigger]
            second.functions.contains_key(k) ==> merged(
                merged(nothing_identified(), first),
                second,
            ).functions[k] == second.functions[k],
        forall|k: u64|
            first.functions.contains_key(k) && !second.functions.contains_key(k) ==> (
            #[trigger] merged(merged(nothing_identified(), first), second).functions[k])
                == first.functions[k],
        merged(merged(nothing_identified(), first), second).new == counted(first.new, second.new),
{
    assert(Map::<u64, (Seq<char>, u64)>::empty().union_prefer_right(first.functions)
        =~= first.functions);
}

/// One strategy of function identification.
pub trait PredicatedLoader {
    /// Whether the strategy is to run, given what was identified so far. A strategy that
    /// does not say otherwise always runs.
    fn predicate(&self, x: &FLResult) -> (b: bool)
        default_ensures
            b,
    {
        true
    }

    /// The functions that the strategy identifies in `rmod`, with the help of `source` and of
    /// what was identified so far.
    fn strategy(&self, source: Option<SourceRef>, last: &FLResult, rmod: &RadecoModule)
        -> FLResult;
}

/// One stage of function identification.
pub enum Strategy<'a> {
    /// Read the symbol table of the module.
    UseSymbols,
    /// Ask the backend for the functions that its own analysis found.
    UseSource,
    /// A strategy of the caller.
    Custom(&'a dyn PredicatedLoader),
}

/// Identifies the functions of a module by running its strategies in order.
pub struct FunctionLoader<'a> {
    /// The backend that is handed to the strategies.
    pub source: Option<SourceRef<'a>>,
    /// The strategies, in the order in which they run.
    pub strategies: Vec<Strategy<'a>>,
}

/// Does what the strategy identifies depend on the symbol table alone? So it is with the
/// strategy that reads the symbol table, and, as long as no backend is given, with the one
/// that asks the backend.
pub open spec fn is_settled(s: Strategy, source_given: bool) -> bool {
    s is UseSymbols || (s is UseSource && !source_given)
}

/// The record after a settled strategy has run on `acc`. Without a backend, the strategy
/// that asks the backend proposes what was gathered so far once more.
pub open spec fn settled_step(acc: FLResultView, s: Strategy, symbols: Seq<LSymbolInfo>)
    -> FLResultView {
    match s {
        Strategy::UseSymbols => merged(acc, identified_by_symbols(symbols)),
        Strategy::UseSource => merged(acc, acc),
        Strategy::Custom(_) => acc,
    }
}

/// The record after settled strategies have run in order, starting from the empty record.
pub open spec fn settled_run(strategies: Seq<Strategy>, symbols: Seq<LSymbolInfo>) -> FLResultView
    decreases strategies.len(),
{
    if strategies.len() == 0 {
        nothing_identified()
    } else {
        settled_step(settled_run(strategies.drop_last(), symbols), strategies.last(), symbols)
    }
}

/// Is the strategy that reads the symbol table among `strategies`?
pub open spec fn reads_symbols(strategies: Seq<Strategy>) -> bool {
    exists|i: int| 0 <= i < strategies.len() && (#[trigger] strategies[i]) is UseSymbols
}

impl<'a> Default for FunctionLoader<'a> {
    fn default() -> (r: FunctionLoader<'a>)
        ensures
            r.source is None,
            r.strategies@ == Seq::<Strategy<'a>>::empty(),
    {
        FunctionLoader { source: None, strategies: Vec::new() }
    }
}

impl<'a> FunctionLoader<'a> {
    /// Adds a strategy of the caller at the end of the list.
    pub fn strategy(self, strat: &'a dyn PredicatedLoader) -> (r: FunctionLoader<'a>)
        ensures
            r.source == self.source,
            r.strategies@ == self.strategies@.push(Strategy::Custom(strat)),
    {
        let mut this = self;
        this.strategies.push(Strategy::Custom(strat));
        this
    }

    /// Runs the strategies in order, starting from the empty record. A strategy whose
    /// predicate refuses what was gathered so far is passed over; the proposals of another
    /// are merged into the record. Whatever the strategies of the caller and the backend
    /// answer, no address is lost once it is in the record: with the strategy that reads the
    /// symbol table in the list, every address that the symbol table identifies is in the
    /// result.
    pub fn load(&mut self, rmod: &RadecoModule) -> (r: FLResult)
        ensures
            *final(self) == *old(self),
            (forall|i: int|
                0 <= i < old(self).strategies@.len() ==> is_settled(
                    #[trigger] old(self).strategies@[i],
                    old(self).source is Some,
                )) ==> r@ == settled_run(old(self).strategies@, rmod.symbols@),
            reads_symbols(old(self).strategies@) ==> identified_by_symbols(
                rmod.symbols@,
            ).functions.dom().subset_of(r@.functions.dom()),
    {
        let mut acc = FLResult::new();
        let mut i: usize = 0;
        let ghost settled = forall|i: int|
            0 <= i < self.strategies@.len() ==> is_settled(
                #[trigger] self.strategies@[i],
                self.source is Some,
            );
        assert(self.strategies@.take(0) =~= Seq::empty());
        while i < self.strategies.len()
            invariant
                i <= self.strategies@.len(),
                *self == *old(self),
                settled == (forall|i: int|
                    0 <= i < self.strategies@.len() ==> is_settled(
                        #[trigger] self.strategies@[i],
                        self.source is Some,
                    )),
                settled ==> acc@ == settled_run(self.strategies@.take(i as int), rmod.symbols@),
                reads_symbols(self.strategies@.take(i as int)) ==> identified_by_symbols(
                    rmod.symbols@,
                ).functions.dom().subset_of(acc@.functions.dom()),
            decreases self.strategies@.len() - i,
        {
            let ghost before = acc@;
            let ghost all = self.strategies@;
            proof {
                assert(self.strategies@.take(i + 1).drop_last() =~= self.strategies@.take(
                    i as int,
                ));
                assert(self.strategies@.take(i + 1).last() == self.strategies@[i as int]);
            }
            match &self.strategies[i] {
                Strategy::UseSymbols => {
                    let fl = strat_use_symbols(self.source, &acc, rmod);
                    acc.merge(fl);
                },
                Strategy::UseSource => {
                    let fl = strat_use_source(self.source, &acc, rmod);
                    acc.merge(fl);
                },
                Strategy::Custom(f) => {
                    let proposal = if f.predicate(&acc) {
                        Some(f.strategy(self.source, &acc, rmod))
                    } else {
                        None
                    };
                    acc.merge_if(proposal);
                },
            }
            proof {
                assert(before.functions.dom().subset_of(acc@.functions.dom()));
                if reads_symbols(all.take(i + 1)) {
                    let j = choose|j: int|
                        0 <= j < all.take(i + 1).len() && (#[trigger] all.take(
                            i + 1,
                        )[j]) is UseSymbols;
                    if j < i {
                        assert(all.take(i as int)[j] is UseSymbols);
                    }
                }
            }
            i = i + 1;
        }
        assert(self.strategies@.take(i as int) =~= self.strategies@);
        acc
    }

    /// Adds the two strategies that are always at hand at the end of the list: first the one
    /// that reads the symbol table, then the one that asks the backend.
    pub fn include_defaults(self) -> (r: FunctionLoader<'a>)
        ensures
            r.source == self.source,
            r.strategies@ == self.strategies@.push(Strategy::UseSymbols).push(
                Strategy::UseSource,
            ),
    {
        let mut this = self;
        this.strategies.push(Strategy::UseSymbols);
        this.strategies.push(Strategy::UseSource);
        this
    }
}

} // verus!
