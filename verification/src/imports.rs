//! Functions that a module uses and another module defines.

use vstd::prelude::*;
use std::collections::HashMap;
use crate::function::RadecoFunction;
use crate::source::LImportInfo;

verus! {

/// An imported function: the address of its entry in the procedure linkage table, its name,
/// and a function container that stands for it in analyses.
#[derive(Debug, Clone)]
pub struct ImportInfo {
    /// Address of the entry in the procedure linkage table.
    pub plt: u64,
    /// Name of the imported function.
    pub name: String,
    /// The container that stands for the function.
    pub rfn: RadecoFunction,
}

impl ImportInfo {
    /// A stub for the import called `name` at `plt`: its container bears that name and
    /// address and is otherwise new.
    pub open spec fn is_stub(&self, plt: u64, name: Seq<char>) -> bool {
        &&& self.plt == plt
        &&& self.name@ == name
        &&& self.rfn.is_identified(name, plt, 0)
    }

    /// A stub for the import called `name` at `plt`.
    pub fn new_stub(plt: u64, name: String) -> (r: ImportInfo)
        ensures
            r.is_stub(plt, name@),
    {
        let rfn = RadecoFunction::identified(name.clone(), plt, 0);
        ImportInfo { plt: plt, name: name, rfn: rfn }
    }
}

/// Does the entry give the address of its entry in the procedure linkage table?
pub open spec fn is_placed_import(i: LImportInfo) -> bool {
    i.plt is Some
}

/// The name that the entry gives; the empty name, if it gives none.
pub open spec fn import_name(i: LImportInfo) -> Seq<char> {
    match i.name {
        Some(name) => name@,
        None => Seq::empty(),
    }
}

/// The imports that an import table gives, by the address of their entry in the procedure
/// linkage table, each with its name. The entries are taken in order, a later one replacing
/// an earlier one at the same address. Entries without an address are passed over; an entry
/// without a name is kept, with the empty name.
pub open spec fn imported(infos: Seq<LImportInfo>) -> Map<u64, Seq<char>>
    decreases infos.len(),
{
    if infos.len() == 0 {
        Map::empty()
    } else {
        let before = imported(infos.drop_last());
        let i = infos.last();
        if is_placed_import(i) {
            before.insert(i.plt.unwrap(), import_name(i))
        } else {
            before
        }
    }
}

/// `imports` holds a stub for each import that `v` describes, and nothing else.
pub open spec fn holds_stubs(imports: Map<u64, ImportInfo>, v: Map<u64, Seq<char>>) -> bool {
    &&& imports.dom() == v.dom()
    &&& forall|k: u64| #[trigger] imports.contains_key(k) ==> imports[k].is_stub(k, v[k])
}

/// A stub for each import of an import table.
pub fn import_stubs(infos: &Vec<LImportInfo>) -> (r: HashMap<u64, ImportInfo>)
    ensures
        holds_stubs(r@, imported(infos@)),
{
    broadcast use vstd::std_specs::hash::group_hash_axioms;

    let mut r: HashMap<u64, ImportInfo> = HashMap::new();
    let mut i: usize = 0;
    assert(infos@.take(0) =~= Seq::empty());
    assert(r@.dom() =~= imported(infos@.take(0)).dom());
    while i < infos.len()
        invariant
            i <= infos@.len(),
            holds_stubs(r@, imported(infos@.take(i as int))),
        decreases infos@.len() - i,
    {
        let ii = &infos[i];
        proof {
            assert(infos@.take(i + 1).drop_last() =~= infos@.take(i as int));
            assert(infos@.take(i + 1).last() == infos@[i as int]);
        }
        match ii.plt {
            Some(plt) => {
                let name = match &ii.name {
                    Some(name) => name.clone(),
                    None => String::new(),
                };
                r.insert(plt, ImportInfo::new_stub(plt, name));
                assert(r@.dom() =~= imported(infos@.take(i + 1)).dom());
            },
            None => {},
        }
        i = i + 1;
    }
    assert(infos@.take(i as int) =~= infos@);
    r
}

} // verus!
