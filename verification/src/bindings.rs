//! Variable bindings: which SSA node of a function holds an argument, a local or the return
//! value, and how the bindings of a function are derived from its register states.

use vstd::prelude::*;
use crate::index::NodeIndex;
use crate::regfile::{register_id_by_alias, RegisterFileView, SubRegisterFile};
use crate::ssa::{NodeType, SSAStorage};

verus! {

/// What a binding stands for.
#[derive(Clone, Copy, Debug, Hash, Eq, PartialEq, Structural)]
pub enum BindingType {
    /// The i-th argument, passed in a register.
    RegisterArgument(usize),
    /// The i-th argument, passed on the stack.
    StackArgument(usize),
    /// A local variable held in a register.
    RegisterLocal,
    /// A local variable on the stack, at this offset from the stack pointer.
    StackLocal(usize),
    /// The return value.
    Return,
    /// Not known.
    Unknown,
}

impl Default for BindingType {
    fn default() -> (r: BindingType)
        ensures
            r == BindingType::Unknown,
    {
        BindingType::Unknown
    }
}

impl BindingType {
    /// Is this an argument, in a register or on the stack?
    pub fn is_argument(&self) -> (r: bool)
        ensures
            r == (*self is RegisterArgument || *self is StackArgument),
    {
        match *self {
            BindingType::RegisterArgument(_) | BindingType::StackArgument(_) => true,
            _ => false,
        }
    }

    /// Is this a local variable, in a register or on the stack?
    pub fn is_local(&self) -> (r: bool)
        ensures
            r == (*self is RegisterLocal || *self is StackLocal),
    {
        match *self {
            BindingType::RegisterLocal | BindingType::StackLocal(_) => true,
            _ => false,
        }
    }

    /// Is this the return value?
    pub fn is_return(&self) -> (r: bool)
        ensures
            r == (*self is Return),
    {
        match *self {
            BindingType::Return => true,
            _ => false,
        }
    }
}

/// The value of a `VarBinding`.
pub struct VarBindingView {
    pub btype: BindingType,
    pub name: Seq<char>,
    pub ridx: Option<u64>,
    pub idx: NodeIndex,
}

/// A variable of a function: its kind, its name, the number of the register that holds it,
/// if one does, and the SSA node that holds its value.
#[derive(Debug, Clone)]
pub struct VarBinding {
    pub btype: BindingType,
    pub name: String,
    pub ridx: Option<u64>,
    pub idx: NodeIndex,
}

impl View for VarBinding {
    type V = VarBindingView;

    open spec fn view(&self) -> VarBindingView {
        VarBindingView { btype: self.btype, name: self.name@, ridx: self.ridx, idx: self.idx }
    }
}

impl Default for VarBinding {
    fn default() -> (r: VarBinding)
        ensures
            r@ == (VarBindingView {
                btype: BindingType::Unknown,
                name: Seq::empty(),
                ridx: None,
                idx: NodeIndex(0),
            }),
    {
        VarBinding {
            btype: BindingType::Unknown,
            name: String::new(),
            ridx: None,
            idx: NodeIndex(0),
        }
    }
}

impl VarBinding {
    /// A binding with the given parts; without a name, its name is empty.
    pub fn new(btype: BindingType, name: Option<String>, idx: NodeIndex, ridx: Option<u64>) -> (r:
        VarBinding)
        ensures
            r@ == (VarBindingView {
                btype: btype,
                name: match name {
                    Some(n) => n@,
                    None => Seq::empty(),
                },
                ridx: ridx,
                idx: idx,
            }),
    {
        let name = match name {
            Some(n) => n,
            None => String::new(),
        };
        VarBinding { name: name, btype: btype, idx: idx, ridx: ridx }
    }

    /// The SSA node that holds the value.
    pub fn index(&self) -> (r: NodeIndex)
        ensures
            r == self.idx,
    {
        self.idx
    }

    /// The kind of the binding.
    pub fn btype(&self) -> (r: BindingType)
        ensures
            r == self.btype,
    {
        self.btype
    }

    /// The kind of the binding, to be changed in place.
    pub fn btype_mut(&mut self) -> (r: &mut BindingType)
        ensures
            *r == old(self).btype,
            final(self)@ == (VarBindingView { btype: *final(r), ..old(self)@ }),
    {
        &mut self.btype
    }
}

/// The bindings of one function, in order.
#[derive(Debug, Clone)]
pub struct VarBindings(pub Vec<VarBinding>);

impl View for VarBindings {
    type V = Seq<VarBindingView>;

    open spec fn view(&self) -> Seq<VarBindingView> {
        self.0@.map_values(|b: VarBinding| b@)
    }
}

impl Default for VarBindings {
    fn default() -> (r: VarBindings)
        ensures
            r@.len() == 0,
    {
        VarBindings(Vec::new())
    }
}

impl VarBindings {
    /// Number of bindings.
    pub fn len(&self) -> (r: usize)
        ensures
            r == self@.len(),
    {
        self.0.len()
    }

    /// A cursor at the first binding.
    pub fn into_iter<'a>(&'a self) -> (r: VarBindingIter<'a>)
        ensures
            r.bindings == self,
            r.pos == 0,
    {
        VarBindingIter { bindings: self, pos: 0 }
    }
}

/// A cursor over the bindings of one function.
pub struct VarBindingIter<'a> {
    pub bindings: &'a VarBindings,
    pub pos: usize,
}

impl<'a> VarBindingIter<'a> {
    /// The binding under the cursor, which then moves on; `None` once all have been given.
    pub fn next(&mut self) -> (r: Option<&'a VarBinding>)
        ensures
            final(self).bindings == old(self).bindings,
            match r {
                Some(b) => {
                    &&& old(self).pos < old(self).bindings.0@.len()
                    &&& *b == old(self).bindings.0@[old(self).pos as int]
                    &&& final(self).pos == old(self).pos + 1
                },
                None => {
                    &&& old(self).pos >= old(self).bindings.0@.len()
                    &&& final(self).pos == old(self).pos
                },
            },
    {
        if self.pos < self.bindings.0.len() {
            let b = &self.bindings.0[self.pos];
            self.pos = self.pos + 1;
            Some(b)
        } else {
            None
        }
    }
}

/// The place of a register role in the calling convention: `A0` to `A5` are the arguments 0
/// to 5, `SN` (place 6) is the return value. Other roles have no place.
pub open spec fn alias_position(alias: Seq<char>) -> Option<nat> {
    if alias == "A0"@ {
        Some(0)
    } else if alias == "A1"@ {
        Some(1)
    } else if alias == "A2"@ {
        Some(2)
    } else if alias == "A3"@ {
        Some(3)
    } else if alias == "A4"@ {
        Some(4)
    } else if alias == "A5"@ {
        Some(5)
    } else if alias == "SN"@ {
        Some(6)
    } else {
        None
    }
}

/// Is node `n` of `ssa` a comment that reads `reg`?
pub open spec fn is_comment(ssa: &SSAStorage, n: NodeIndex, reg: Seq<char>) -> bool {
    match ssa.spec_node_data(n) {
        Some(d) => match d.nt {
            NodeType::Comment(s) => s@ == reg,
            _ => false,
        },
        None => false,
    }
}

/// The first node of `snapshot` that is a comment reading `reg`; the reserved index if none
/// is.
pub open spec fn first_commented(ssa: &SSAStorage, snapshot: Seq<NodeIndex>, reg: Seq<char>)
    -> NodeIndex
    decreases snapshot.len(),
{
    if snapshot.len() == 0 {
        NodeIndex::spec_end()
    } else if is_comment(ssa, snapshot[0], reg) {
        snapshot[0]
    } else {
        first_commented(ssa, snapshot.drop_first(), reg)
    }
}

/// The binding that one entry of the alias table gives rise to, if its role has a place:
/// an argument found in the entry state, or the return value found in the exit state.
pub open spec fn binding_of(
    ssa: &SSAStorage,
    regfile: RegisterFileView,
    entry_state: Seq<NodeIndex>,
    exit_state: Seq<NodeIndex>,
    a: (Seq<char>, Seq<char>),
) -> Option<VarBindingView> {
    match alias_position(a.0) {
        Some(pos) => Some(
            VarBindingView {
                btype: if pos < 6 {
                    BindingType::RegisterArgument(pos as usize)
                } else {
                    BindingType::Return
                },
                name: Seq::empty(),
                ridx: register_id_by_alias(regfile, a.0),
                idx: if pos < 6 {
                    first_commented(ssa, entry_state, a.1)
                } else {
                    first_commented(ssa, exit_state, a.1)
                },
            },
        ),
        None => None,
    }
}

/// The bindings that the first `n` entries of the alias table give rise to, in table order.
pub open spec fn emitted(
    ssa: &SSAStorage,
    regfile: RegisterFileView,
    entry_state: Seq<NodeIndex>,
    exit_state: Seq<NodeIndex>,
    n: nat,
) -> Seq<VarBindingView>
    decreases n,
{
    if n == 0 || n > regfile.aliases.len() {
        Seq::empty()
    } else {
        let before = emitted(ssa, regfile, entry_state, exit_state, (n - 1) as nat);
        match binding_of(ssa, regfile, entry_state, exit_state, regfile.aliases[n - 1]) {
            Some(b) => before.push(b),
            None => before,
        }
    }
}

/// The register arguments of `s` with a position below `n`: those at position 0 first, then
/// those at position 1, and so on, each group in the order of `s`.
pub open spec fn arguments_below(s: Seq<VarBindingView>, n: nat) -> Seq<VarBindingView>
    decreases n,
{
    if n == 0 {
        Seq::empty()
    } else {
        arguments_below(s, (n - 1) as nat) + s.filter(
            |b: VarBindingView| b.btype == BindingType::RegisterArgument((n - 1) as usize),
        )
    }
}

/// One more than the highest position of a register argument of `s`; 0 if it has none.
pub open spec fn position_limit(s: Seq<VarBindingView>) -> nat
    decreases s.len(),
{
    if s.len() == 0 {
        0
    } else {
        let rest = position_limit(s.drop_last());
        match s.last().btype {
            BindingType::RegisterArgument(p) => if p + 1 > rest {
                (p + 1) as nat
            } else {
                rest
            },
            _ => rest,
        }
    }
}

/// `s` sorted: its register arguments moved to the front and ordered by position, the other
/// bindings after them. Bindings that compare equal keep their order.
pub open spec fn arranged(s: Seq<VarBindingView>) -> Seq<VarBindingView> {
    arguments_below(s, position_limit(s)) + s.filter(
        |b: VarBindingView| !(b.btype is RegisterArgument),
    )
}

/// Register arguments come first and their positions never decrease.
pub open spec fn arguments_lead(s: Seq<VarBindingView>) -> bool {
    forall|i: int, j: int|
        0 <= i < j < s.len() && (#[trigger] s[j]).btype is RegisterArgument ==> {
            &&& (#[trigger] s[i]).btype is RegisterArgument
            &&& s[i].btype->RegisterArgument_0 <= s[j].btype->RegisterArgument_0
        }
}

/// The bindings that `ssa` and `regfile` give rise to, arranged.
pub open spec fn inferred(ssa: &SSAStorage, regfile: RegisterFileView) -> Seq<VarBindingView>
    recommends
        ssa.has_register_states(),
{
    arranged(
        emitted(
            ssa,
            regfile,
            ssa.snapshot(ssa.entry).unwrap(),
            ssa.snapshot(ssa.exit).unwrap(),
            regfile.aliases.len(),
        ),
    )
}

/// In the bindings that an SSA form and a register file give rise to, the register arguments
/// come first and their positions never decrease.
pub proof fn lemma_inferred_leads(ssa: &SSAStorage, regfile: RegisterFileView)
    ensures
        arguments_lead(inferred(ssa, regfile)),
{
    let entry_state = ssa.snapshot(ssa.entry).unwrap();
    let exit_state = ssa.snapshot(ssa.exit).unwrap();
    lemma_arranged_leads(emitted(ssa, regfile, entry_state, exit_state, regfile.aliases.len()));
}

/// The values of a sequence of bindings.
pub open spec fn views(s: Seq<VarBinding>) -> Seq<VarBindingView> {
    s.map_values(|b: VarBinding| b@)
}

/// Every register argument of `s` has a position below the limit, which is at most one more
/// than the highest position there is.
pub proof fn lemma_position_limit(s: Seq<VarBindingView>)
    ensures
        position_limit(s) <= usize::MAX + 1,
        forall|i: int|
            0 <= i < s.len() && (#[trigger] s[i]).btype is RegisterArgument
                ==> s[i].btype->RegisterArgument_0 < position_limit(s),
    decreases s.len(),
{
    if s.len() > 0 {
        let rest = s.drop_last();
        lemma_position_limit(rest);
        assert forall|i: int|
            0 <= i < s.len() && (#[trigger] s[i]).btype is RegisterArgument implies s[i].btype->RegisterArgument_0
            < position_limit(s) by {
            if i < s.len() - 1 {
                assert(rest[i] == s[i]);
            }
        }
    }
}

/// The limit is the least bound: it is at most any number above all positions.
proof fn lemma_position_limit_least(s: Seq<VarBindingView>, bound: nat)
    requires
        forall|i: int|
            0 <= i < s.len() && (#[trigger] s[i]).btype is RegisterArgument
                ==> s[i].btype->RegisterArgument_0 < bound,
    ensures
        position_limit(s) <= bound,
    decreases s.len(),
{
    if s.len() > 0 {
        let rest = s.drop_last();
        assert forall|i: int|
            0 <= i < rest.len() && (#[trigger] rest[i]).btype is RegisterArgument implies rest[i].btype->RegisterArgument_0
            < bound by {
            assert(rest[i] == s[i]);
        }
        lemma_position_limit_least(rest, bound);
        assert(s.last() == s[s.len() - 1]);
    }
}

/// Where no register argument of `s` has a position from `p` up to, but not including, `q`,
/// the register arguments below `q` are those below `p`.
proof fn lemma_below_skip(s: Seq<VarBindingView>, p: nat, q: nat)
    requires
        p <= q <= usize::MAX + 1,
        forall|i: int|
            0 <= i < s.len() && (#[trigger] s[i]).btype is RegisterArgument ==> !(p
                <= s[i].btype->RegisterArgument_0 < q),
    ensures
        arguments_below(s, q) == arguments_below(s, p),
    decreases q,
{
    if q > p {
        lemma_below_skip(s, p, (q - 1) as nat);
        let pred = |b: VarBindingView| b.btype == BindingType::RegisterArgument((q - 1) as usize);
        assert forall|i: int| 0 <= i < s.len() implies !pred(#[trigger] s[i]) by {
            if s[i].btype is RegisterArgument {
                assert(!(p <= s[i].btype->RegisterArgument_0 < q));
            }
        }
        lemma_none_filtered(s, pred);
        assert(s.filter(pred) =~= Seq::empty());
        assert(arguments_below(s, q) =~= arguments_below(s, (q - 1) as nat));
    }
}

/// Bindings that are arranged have their register arguments first, by position, and none is
/// lost.
pub proof fn lemma_arranged_leads(s: Seq<VarBindingView>)
    ensures
        arguments_lead(arranged(s)),
        arranged(s).len() == s.len(),
{
    lemma_position_limit(s);
    let limit = position_limit(s);
    lemma_arguments_below(s, limit);
    let others = s.filter(|b: VarBindingView| !(b.btype is RegisterArgument));
    let front = arguments_below(s, limit);
    broadcast use vstd::seq_lib::group_filter_ensures;

    assert forall|i: int, j: int|
        0 <= i < j < arranged(s).len() && (#[trigger] arranged(s)[j]).btype is RegisterArgument
        implies (#[trigger] arranged(s)[i]).btype is RegisterArgument && arranged(
        s,
    )[i].btype->RegisterArgument_0 <= arranged(s)[j].btype->RegisterArgument_0 by {
        if j >= front.len() {
            assert(arranged(s)[j] == others[j - front.len()]);
            assert(!(others[j - front.len()].btype is RegisterArgument));
        }
    }
    lemma_partition_len(s, limit);
}

/// The register arguments below `n` are ordered by position, and all of them are register
/// arguments with a position below `n`.
proof fn lemma_arguments_below(s: Seq<VarBindingView>, n: nat)
    requires
        n <= usize::MAX + 1,
    ensures
        arguments_lead(arguments_below(s, n)),
        forall|i: int|
            0 <= i < arguments_below(s, n).len() ==> {
                &&& (#[trigger] arguments_below(s, n)[i]).btype is RegisterArgument
                &&& arguments_below(s, n)[i].btype->RegisterArgument_0 < n
            },
    decreases n,
{
    if n > 0 {
        lemma_arguments_below(s, (n - 1) as nat);
        let before = arguments_below(s, (n - 1) as nat);
        let pred = |b: VarBindingView| b.btype == BindingType::RegisterArgument((n - 1) as usize);
        let group = s.filter(pred);
        broadcast use vstd::seq_lib::group_filter_ensures;

        assert forall|i: int| 0 <= i < group.len() implies (#[trigger] group[i]).btype
            == BindingType::RegisterArgument((n - 1) as usize) by {
            assert(pred(group[i]));
        }
        let all = arguments_below(s, n);
        assert(all == before + group);
        assert forall|i: int| 0 <= i < all.len() implies (#[trigger] all[i]).btype
            is RegisterArgument && all[i].btype->RegisterArgument_0 < n by {
            if i >= before.len() {
                assert(all[i] == group[i - before.len()]);
            } else {
                assert(all[i] == before[i]);
            }
        }
        assert forall|i: int, j: int|
            0 <= i < j < all.len() && (#[trigger] all[j]).btype is RegisterArgument implies (
        #[trigger] all[i]).btype is RegisterArgument && all[i].btype->RegisterArgument_0
            <= all[j].btype->RegisterArgument_0 by {
            if j < before.len() {
                assert(all[i] == before[i] && all[j] == before[j]);
            } else if i < before.len() {
                assert(all[i] == before[i]);
                assert(all[j] == group[j - before.len()]);
            } else {
                assert(all[i] == group[i - before.len()]);
                assert(all[j] == group[j - before.len()]);
            }
        }
    }
}

/// Number of bindings of `s` that are register arguments with a position below `n`, or no
/// register arguments at all.
spec fn arranged_count(s: Seq<VarBindingView>, n: nat) -> nat
    decreases s.len(),
{
    if s.len() == 0 {
        0
    } else {
        let b = s.last();
        let here: nat = if !(b.btype is RegisterArgument) || b.btype->RegisterArgument_0 < n {
            1
        } else {
            0
        };
        arranged_count(s.drop_last(), n) + here
    }
}

proof fn lemma_filter_last<A>(s: Seq<A>, pred: spec_fn(A) -> bool)
    requires
        s.len() > 0,
    ensures
        s.filter(pred) == if pred(s.last()) {
            s.drop_last().filter(pred).push(s.last())
        } else {
            s.drop_last().filter(pred)
        },
{
    reveal_with_fuel(Seq::filter, 2);
}

proof fn lemma_group_len(s: Seq<VarBindingView>, n: nat)
    requires
        n <= usize::MAX + 1,
    ensures
        arguments_below(s, n).len() == s.filter(
            |b: VarBindingView| b.btype is RegisterArgument && b.btype->RegisterArgument_0 < n,
        ).len(),
    decreases n, s.len(),
{
    let below = |b: VarBindingView| b.btype is RegisterArgument && b.btype->RegisterArgument_0 < n;
    if n == 0 {
        lemma_none_filtered(s, below);
    } else {
        let at = |b: VarBindingView| b.btype == BindingType::RegisterArgument((n - 1) as usize);
        let under = |b: VarBindingView|
            b.btype is RegisterArgument && b.btype->RegisterArgument_0 < (n - 1) as nat;
        lemma_group_len(s, (n - 1) as nat);
        lemma_split_len(s, below, under, at);
    }
}

proof fn lemma_none_filtered<A>(s: Seq<A>, pred: spec_fn(A) -> bool)
    requires
        forall|i: int| 0 <= i < s.len() ==> !pred(#[trigger] s[i]),
    ensures
        s.filter(pred).len() == 0,
    decreases s.len(),
{
    if s.len() > 0 {
        lemma_filter_last(s, pred);
        let rest = s.drop_last();
        assert forall|i: int| 0 <= i < rest.len() implies !pred(#[trigger] rest[i]) by {
            assert(rest[i] == s[i]);
        }
        lemma_none_filtered(rest, pred);
        assert(s.last() == s[s.len() - 1]);
    } else {
        reveal_with_fuel(Seq::filter, 1);
    }
}

/// Where `whole` holds exactly when one of `left` and `right` holds, and these two never hold
/// together, the filtered lengths add up.
proof fn lemma_split_len<A>(
    s: Seq<A>,
    whole: spec_fn(A) -> bool,
    left: spec_fn(A) -> bool,
    right: spec_fn(A) -> bool,
)
    requires
        forall|i: int|
            0 <= i < s.len() ==> (whole(#[trigger] s[i]) <==> (left(s[i]) || right(s[i]))),
        forall|i: int| 0 <= i < s.len() ==> !(left(#[trigger] s[i]) && right(s[i])),
    ensures
        s.filter(whole).len() == s.filter(left).len() + s.filter(right).len(),
    decreases s.len(),
{
    if s.len() > 0 {
        lemma_filter_last(s, whole);
        lemma_filter_last(s, left);
        lemma_filter_last(s, right);
        let rest = s.drop_last();
        assert forall|i: int| 0 <= i < rest.len() implies (whole(#[trigger] rest[i]) <==> (left(
            rest[i],
        ) || right(rest[i]))) by {
            assert(rest[i] == s[i]);
        }
        assert forall|i: int| 0 <= i < rest.len() implies !(left(#[trigger] rest[i]) && right(
            rest[i],
        )) by {
            assert(rest[i] == s[i]);
        }
        lemma_split_len(rest, whole, left, right);
        assert(s.last() == s[s.len() - 1]);
    } else {
        reveal_with_fuel(Seq::filter, 1);
    }
}

proof fn lemma_partition_len(s: Seq<VarBindingView>, n: nat)
    requires
        n <= usize::MAX + 1,
        forall|i: int|
            0 <= i < s.len() && (#[trigger] s[i]).btype is RegisterArgument
                ==> s[i].btype->RegisterArgument_0 < n,
    ensures
        arguments_below(s, n).len() + s.filter(
            |b: VarBindingView| !(b.btype is RegisterArgument),
        ).len() == s.len(),
{
    let below = |b: VarBindingView| b.btype is RegisterArgument && b.btype->RegisterArgument_0 < n;
    let others = |b: VarBindingView| !(b.btype is RegisterArgument);
    lemma_group_len(s, n);
    lemma_complement_len(s, below, others);
}

/// Where every element of `s` satisfies exactly one of `left` and `right`, the filtered
/// lengths add up to the length of `s`.
proof fn lemma_complement_len<A>(s: Seq<A>, left: spec_fn(A) -> bool, right: spec_fn(A) -> bool)
    requires
        forall|i: int| 0 <= i < s.len() ==> (left(#[trigger] s[i]) <==> !right(s[i])),
    ensures
        s.filter(left).len() + s.filter(right).len() == s.len(),
    decreases s.len(),
{
    if s.len() > 0 {
        lemma_filter_last(s, left);
        lemma_filter_last(s, right);
        let rest = s.drop_last();
        assert forall|i: int| 0 <= i < rest.len() implies (left(#[trigger] rest[i]) <==> !right(
            rest[i],
        )) by {
            assert(rest[i] == s[i]);
        }
        lemma_complement_len(rest, left, right);
        assert(s.last() == s[s.len() - 1]);
    } else {
        reveal_with_fuel(Seq::filter, 1);
    }
}

/// The place of a register role in the calling convention.
pub fn alias_place(alias: &String) -> (r: Option<usize>)
    ensures
        r == match alias_position(alias@) {
            Some(p) => Some(p as usize),
            None => None,
        },
{
    if *alias == "A0".to_owned() {
        Some(0)
    } else if *alias == "A1".to_owned() {
        Some(1)
    } else if *alias == "A2".to_owned() {
        Some(2)
    } else if *alias == "A3".to_owned() {
        Some(3)
    } else if *alias == "A4".to_owned() {
        Some(4)
    } else if *alias == "A5".to_owned() {
        Some(5)
    } else if *alias == "SN".to_owned() {
        Some(6)
    } else {
        None
    }
}

/// The first node of `snapshot` that is a comment reading `reg`; the reserved index if none
/// is.
pub fn find_register(ssa: &SSAStorage, snapshot: &Vec<NodeIndex>, reg: &String) -> (r: NodeIndex)
    ensures
        r == first_commented(ssa, snapshot@, reg@),
{
    let mut i: usize = 0;
    assert(snapshot@.skip(0) =~= snapshot@);
    while i < snapshot.len()
        invariant
            i <= snapshot@.len(),
            first_commented(ssa, snapshot@, reg@) == first_commented(
                ssa,
                snapshot@.skip(i as int),
                reg@,
            ),
        decreases snapshot@.len() - i,
    {
        let ghost rest = snapshot@.skip(i as int);
        assert(rest[0] == snapshot@[i as int]);
        assert(rest.drop_first() =~= snapshot@.skip(i + 1));
        let n = snapshot[i];
        let found = match ssa.node_data(n) {
            Some(d) => match &d.nt {
                NodeType::Comment(s) => *s == *reg,
                _ => false,
            },
            None => false,
        };
        if found {
            return n;
        }
        i = i + 1;
    }
    assert(snapshot@.skip(i as int).len() == 0);
    NodeIndex::end()
}

/// Goes through the alias table and gives a binding for each role that has a place in the
/// calling convention, in table order.
pub fn emit_bindings(
    ssa: &SSAStorage,
    regfile: &SubRegisterFile,
    entry_state: &Vec<NodeIndex>,
    exit_state: &Vec<NodeIndex>,
) -> (out: Vec<VarBinding>)
    ensures
        views(out@) == emitted(ssa, regfile@, entry_state@, exit_state@, regfile@.aliases.len()),
        forall|i: int|
            0 <= i < out@.len() && (#[trigger] out@[i]).btype is RegisterArgument
                ==> out@[i].btype->RegisterArgument_0 < 6,
{
    let mut out: Vec<VarBinding> = Vec::new();
    let mut i: usize = 0;
    assert(views(out@) =~= Seq::empty());
    while i < regfile.alias_info.len()
        invariant
            i <= regfile.alias_info@.len(),
            views(out@) == emitted(ssa, regfile@, entry_state@, exit_state@, i as nat),
            forall|k: int|
                0 <= k < out@.len() && (#[trigger] out@[k]).btype is RegisterArgument
                    ==> out@[k].btype->RegisterArgument_0 < 6,
        decreases regfile.alias_info@.len() - i,
    {
        let a = &regfile.alias_info[i];
        match alias_place(&a.alias) {
            Some(pos) => {
                let ridx = regfile.register_id_by_alias(&a.alias);
                let vb = if pos < 6 {
                    VarBinding::new(
                        BindingType::RegisterArgument(pos),
                        None,
                        find_register(ssa, entry_state, &a.reg),
                        ridx,
                    )
                } else {
                    VarBinding::new(
                        BindingType::Return,
                        None,
                        find_register(ssa, exit_state, &a.reg),
                        ridx,
                    )
                };
                let ghost before = out@;
                out.push(vb);
                assert(views(out@) =~= views(before).push(vb@));
            },
            None => {},
        }
        i = i + 1;
    }
    out
}

/// A binding with the same value.
pub fn copy_binding(b: &VarBinding) -> (r: VarBinding)
    ensures
        r@ == b@,
{
    VarBinding { btype: b.btype, name: b.name.clone(), ridx: b.ridx, idx: b.idx }
}

/// The lowest position, from `lower` on, that a register argument of `bindings` has, if one
/// has such a position.
pub fn next_position(bindings: &Vec<VarBinding>, lower: usize) -> (r: Option<usize>)
    ensures
        match r {
            Some(p) => {
                &&& lower <= p
                &&& exists|i: int|
                    0 <= i < bindings@.len() && (#[trigger] bindings@[i]).btype
                        == BindingType::RegisterArgument(p)
                &&& forall|i: int|
                    0 <= i < bindings@.len() && (#[trigger] bindings@[i]).btype is RegisterArgument
                        && bindings@[i].btype->RegisterArgument_0 >= lower ==> p
                        <= bindings@[i].btype->RegisterArgument_0
            },
            None => forall|i: int|
                0 <= i < bindings@.len() && (#[trigger] bindings@[i]).btype is RegisterArgument
                    ==> bindings@[i].btype->RegisterArgument_0 < lower,
        },
{
    let mut best: Option<usize> = None;
    let mut i: usize = 0;
    while i < bindings.len()
        invariant
            i <= bindings@.len(),
            match best {
                Some(p) => {
                    &&& lower <= p
                    &&& exists|k: int|
                        0 <= k < i && (#[trigger] bindings@[k]).btype
                            == BindingType::RegisterArgument(p)
                    &&& forall|k: int|
                        0 <= k < i && (#[trigger] bindings@[k]).btype is RegisterArgument
                            && bindings@[k].btype->RegisterArgument_0 >= lower ==> p
                            <= bindings@[k].btype->RegisterArgument_0
                },
                None => forall|k: int|
                    0 <= k < i && (#[trigger] bindings@[k]).btype is RegisterArgument
                        ==> bindings@[k].btype->RegisterArgument_0 < lower,
            },
        decreases bindings@.len() - i,
    {
        match bindings[i].btype {
            BindingType::RegisterArgument(q) => {
                if q >= lower {
                    let better = match best {
                        Some(p) => q < p,
                        None => true,
                    };
                    if better {
                        best = Some(q);
                    }
                }
            },
            _ => {},
        }
        i = i + 1;
    }
    best
}

/// Appends to `out` the bindings of `emitted` that are register arguments at position `pos`,
/// in their order.
pub fn append_position(out: &mut Vec<VarBinding>, emitted: &Vec<VarBinding>, pos: usize)
    ensures
        views(final(out)@) == views(old(out)@) + views(emitted@).filter(
            |b: VarBindingView| b.btype == BindingType::RegisterArgument(pos),
        ),
{
    let ghost src = views(emitted@);
    let ghost pred = |b: VarBindingView| b.btype == BindingType::RegisterArgument(pos);
    let ghost base = views(out@);
    let mut i: usize = 0;
    assert(src.take(0).filter(pred) =~= Seq::empty()) by {
        reveal_with_fuel(Seq::filter, 1);
    }
    assert(base + Seq::<VarBindingView>::empty() =~= base);
    while i < emitted.len()
        invariant
            i <= emitted@.len(),
            src == views(emitted@),
            pred == |b: VarBindingView| b.btype == BindingType::RegisterArgument(pos),
            views(out@) == base + src.take(i as int).filter(pred),
        decreases emitted@.len() - i,
    {
        let b = &emitted[i];
        let ghost before = out@;
        proof {
            lemma_filter_last(src.take(i + 1), pred);
            assert(src.take(i + 1).drop_last() =~= src.take(i as int));
        }
        if b.btype == BindingType::RegisterArgument(pos) {
            out.push(copy_binding(b));
            assert(views(out@) =~= views(before).push(b@));
            assert(views(out@) =~= base + src.take(i + 1).filter(pred));
        }
        i = i + 1;
    }
    assert(src.take(i as int) =~= src);
}

/// Sorts the bindings: the register arguments come to the front, ordered by position, the
/// other bindings follow. Bindings that compare equal keep their order.
pub fn arrange_bindings(emitted: &Vec<VarBinding>) -> (out: Vec<VarBinding>)
    ensures
        views(out@) == arranged(views(emitted@)),
{
    let mut out: Vec<VarBinding> = Vec::new();
    let ghost src = views(emitted@);
    let mut lower: usize = 0;
    let mut open = true;
    let ghost mut done: nat = 0;
    assert(views(out@) =~= arguments_below(src, 0));
    while open
        invariant
            src == views(emitted@),
            done <= usize::MAX + 1,
            open ==> done == lower,
            !open ==> forall|i: int|
                0 <= i < src.len() && (#[trigger] src[i]).btype is RegisterArgument
                    ==> src[i].btype->RegisterArgument_0 < done,
            views(out@) == arguments_below(src, done),
        decreases
                (if open {
                    usize::MAX - lower + 1
                } else {
                    0
                }),
    {
        match next_position(emitted, lower) {
            Some(p) => {
                proof {
                    assert forall|i: int|
                        0 <= i < src.len() && (#[trigger] src[i]).btype is RegisterArgument implies !(
                    lower <= src[i].btype->RegisterArgument_0 < p) by {
                        assert(src[i] == emitted@[i]@);
                        assert(emitted@[i].btype is RegisterArgument);
                    }
                    lemma_below_skip(src, lower as nat, p as nat);
                }
                append_position(&mut out, emitted, p);
                proof {
                    done = (p + 1) as nat;
                    assert(views(out@) == arguments_below(src, done));
                }
                if p == usize::MAX {
                    open = false;
                } else {
                    lower = p + 1;
                }
            },
            None => {
                proof {
                    assert forall|i: int|
                        0 <= i < src.len() && (#[trigger] src[i]).btype is RegisterArgument implies src[i].btype->RegisterArgument_0
                        < done by {
                        assert(src[i] == emitted@[i]@);
                        assert(emitted@[i].btype is RegisterArgument);
                    }
                }
                open = false;
            },
        }
    }
    proof {
        lemma_position_limit(src);
        lemma_position_limit_least(src, done);
        lemma_below_skip(src, position_limit(src), done);
    }
    let ghost pred = |b: VarBindingView| !(b.btype is RegisterArgument);
    let ghost base = views(out@);
    let mut i: usize = 0;
    assert(src.take(0).filter(pred) =~= Seq::empty()) by {
        reveal_with_fuel(Seq::filter, 1);
    }
    assert(base + Seq::<VarBindingView>::empty() =~= base);
    while i < emitted.len()
        invariant
            i <= emitted@.len(),
            src == views(emitted@),
            pred == |b: VarBindingView| !(b.btype is RegisterArgument),
            base == arguments_below(src, position_limit(src)),
            views(out@) == base + src.take(i as int).filter(pred),
        decreases emitted@.len() - i,
    {
        let b = &emitted[i];
        let ghost before = out@;
        proof {
            lemma_filter_last(src.take(i + 1), pred);
            assert(src.take(i + 1).drop_last() =~= src.take(i as int));
        }
        let is_reg_arg = match b.btype {
            BindingType::RegisterArgument(_) => true,
            _ => false,
        };
        if !is_reg_arg {
            out.push(copy_binding(b));
            assert(views(out@) =~= views(before).push(b@));
            assert(views(out@) =~= base + src.take(i + 1).filter(pred));
        }
        i = i + 1;
    }
    assert(src.take(i as int) =~= src);
    out
}

} // verus!
