//! The register file of an architecture, as far as the loaders read it: which physical
//! register plays which role, and the number of each register.

use vstd::prelude::*;
use crate::source::{LAliasInfo, LRegInfo, LRegProfile};

verus! {

/// A role and the physical register that plays it.
#[derive(Clone, Debug)]
pub struct RegisterAlias {
    pub alias: String,
    pub reg: String,
}

/// Roles and register names of an architecture. The number of a register is its position in
/// `whole_names`.
#[derive(Clone, Debug)]
pub struct SubRegisterFile {
    pub alias_info: Vec<RegisterAlias>,
    pub whole_names: Vec<String>,
}

/// The value of a register file: the alias table as pairs of a role and a register name, and
/// the register names by number.
pub struct RegisterFileView {
    pub aliases: Seq<(Seq<char>, Seq<char>)>,
    pub names: Seq<Seq<char>>,
}

impl View for SubRegisterFile {
    type V = RegisterFileView;

    open spec fn view(&self) -> RegisterFileView {
        RegisterFileView {
            aliases: self.alias_info@.map_values(|a: RegisterAlias| (a.alias@, a.reg@)),
            names: self.whole_names@.map_values(|n: String| n@),
        }
    }
}

/// The register file that a register profile describes: its roles with their registers, and
/// the names of its registers, both in the order of the profile.
pub open spec fn profile_view(reg_info: LRegInfo) -> RegisterFileView {
    RegisterFileView {
        aliases: reg_info.alias_info@.map_values(|a: LAliasInfo| (a.role_str@, a.reg@)),
        names: reg_info.reg_info@.map_values(|r: LRegProfile| r.name@),
    }
}

/// Position of the first of `names` that equals `name`, if any does.
pub open spec fn first_named(names: Seq<Seq<char>>, name: Seq<char>) -> Option<int>
    decreases names.len(),
{
    if names.len() == 0 {
        None
    } else if names[0] == name {
        Some(0)
    } else {
        match first_named(names.drop_first(), name) {
            Some(i) => Some(i + 1),
            None => None,
        }
    }
}

/// The register that the first entry for role `alias` names, if there is such an entry.
pub open spec fn first_aliased(table: Seq<(Seq<char>, Seq<char>)>, alias: Seq<char>) -> Option<
    Seq<char>,
>
    decreases table.len(),
{
    if table.len() == 0 {
        None
    } else if table[0].0 == alias {
        Some(table[0].1)
    } else {
        first_aliased(table.drop_first(), alias)
    }
}

/// What `first_named` finds is the first position that holds the name; it finds none only if
/// no position holds it.
proof fn lemma_first_named(names: Seq<Seq<char>>, name: Seq<char>)
    ensures
        match first_named(names, name) {
            Some(i) => 0 <= i < names.len() && names[i] == name && forall|j: int|
                0 <= j < i ==> names[j] != name,
            None => forall|j: int| 0 <= j < names.len() ==> names[j] != name,
        },
    decreases names.len(),
{
    if names.len() > 0 && names[0] != name {
        let rest = names.drop_first();
        lemma_first_named(rest, name);
        match first_named(rest, name) {
            Some(i) => {
                assert forall|j: int| 0 <= j < i + 1 implies names[j] != name by {
                    if j > 0 {
                        assert(rest[j - 1] == names[j]);
                    }
                }
            },
            None => {
                assert forall|j: int| 0 <= j < names.len() implies names[j] != name by {
                    if j > 0 {
                        assert(rest[j - 1] == names[j]);
                    }
                }
            },
        }
    }
}

/// The number of the register called `name`: the first position that holds that name.
pub open spec fn register_id_by_name(rf: RegisterFileView, name: Seq<char>) -> Option<u64> {
    match first_named(rf.names, name) {
        Some(i) => Some(i as u64),
        None => None,
    }
}

/// The number of the register that plays role `alias`, by the first entry for that role.
pub open spec fn register_id_by_alias(rf: RegisterFileView, alias: Seq<char>) -> Option<u64> {
    match first_aliased(rf.aliases, alias) {
        Some(reg) => register_id_by_name(rf, reg),
        None => None,
    }
}

impl SubRegisterFile {
    /// The register file that a register profile describes.
    pub fn new(reg_info: &LRegInfo) -> (r: SubRegisterFile)
        ensures
            r@ == profile_view(*reg_info),
    {
        let mut alias_info: Vec<RegisterAlias> = Vec::new();
        let mut i: usize = 0;
        while i < reg_info.alias_info.len()
            invariant
                i <= reg_info.alias_info@.len(),
                alias_info@.len() == i,
                forall|j: int|
                    0 <= j < i ==> {
                        &&& (#[trigger] alias_info@[j]).alias@ == reg_info.alias_info@[j].role_str@
                        &&& alias_info@[j].reg@ == reg_info.alias_info@[j].reg@
                    },
            decreases reg_info.alias_info@.len() - i,
        {
            let a = &reg_info.alias_info[i];
            alias_info.push(RegisterAlias { alias: a.role_str.clone(), reg: a.reg.clone() });
            i = i + 1;
        }
        let mut whole_names: Vec<String> = Vec::new();
        let mut k: usize = 0;
        while k < reg_info.reg_info.len()
            invariant
                k <= reg_info.reg_info@.len(),
                whole_names@.len() == k,
                forall|j: int|
                    0 <= j < k ==> (#[trigger] whole_names@[j])@ == reg_info.reg_info@[j].name@,
            decreases reg_info.reg_info@.len() - k,
        {
            whole_names.push(reg_info.reg_info[k].name.clone());
            k = k + 1;
        }
        let r = SubRegisterFile { alias_info: alias_info, whole_names: whole_names };
        assert(r@.aliases =~= profile_view(*reg_info).aliases);
        assert(r@.names =~= profile_view(*reg_info).names);
        r
    }

    /// The number of the register called `name`.
    pub fn register_id_by_name(&self, name: &String) -> (r: Option<u64>)
        ensures
            r == register_id_by_name(self@, name@),
    {
        let mut i: usize = 0;
        while i < self.whole_names.len()
            invariant
                i <= self.whole_names@.len(),
                forall|j: int| 0 <= j < i ==> self@.names[j] != name@,
            decreases self.whole_names@.len() - i,
        {
            if self.whole_names[i] == *name {
                proof {
                    lemma_first_named(self@.names, name@);
                    assert(self@.names[i as int] == name@);
                }
                return Some(i as u64);
            }
            i = i + 1;
        }
        proof {
            lemma_first_named(self@.names, name@);
        }
        None
    }

    /// The number of the register that plays role `alias`.
    pub fn register_id_by_alias(&self, alias: &String) -> (r: Option<u64>)
        ensures
            r == register_id_by_alias(self@, alias@),
    {
        let mut i: usize = 0;
        assert(self@.aliases.skip(0) =~= self@.aliases);
        while i < self.alias_info.len()
            invariant
                i <= self.alias_info@.len(),
                first_aliased(self@.aliases, alias@) == first_aliased(
                    self@.aliases.skip(i as int),
                    alias@,
                ),
            decreases self.alias_info@.len() - i,
        {
            let ghost rest = self@.aliases.skip(i as int);
            assert(rest[0] == self@.aliases[i as int]);
            assert(rest.drop_first() =~= self@.aliases.skip(i + 1));
            if self.alias_info[i].alias == *alias {
                return self.register_id_by_name(&self.alias_info[i].reg);
            }
            i = i + 1;
        }
        assert(self@.aliases.skip(i as int).len() == 0);
        None
    }
}

impl Default for SubRegisterFile {
    fn default() -> (r: SubRegisterFile)
        ensures
            r@.aliases.len() == 0,
            r@.names.len() == 0,
    {
        SubRegisterFile { alias_info: Vec::new(), whole_names: Vec::new() }
    }
}

} // verus!
