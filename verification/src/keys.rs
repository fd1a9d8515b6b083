//! The keys of a map, as a vector.

use vstd::prelude::*;
use std::collections::BTreeMap;
use std::collections::HashMap;
use vstd::std_specs::cmp::OrdSpec;
use vstd::std_specs::iter::IteratorSpec;

verus! {

/// Does the standard library's order put `a` before `b`?
spec fn precedes<K: Ord>(a: K, b: K) -> bool {
    a.cmp_spec(&b) is Less
}

/// References that the standard library's order takes to be increasing point to increasing
/// numbers.
proof fn lemma_increasing(s: Seq<&u64>)
    requires
        vstd::std_specs::btree::increasing_seq(s),
    ensures
        forall|i: int, j: int| 0 <= i < j < s.len() ==> *s[i] < *s[j],
{
    broadcast use vstd::laws_cmp::group_laws_cmp;

    assert(vstd::laws_cmp::obeys_cmp::<u64>());
    assert(vstd::laws_cmp::obeys_cmp::<&u64>());
    vstd::std_specs::btree::axiom_increasing_seq_meaning(s);
    assert forall|i: int, j: int| 0 <= i < j < s.len() implies *s[i] < *s[j] by {
        assert(precedes(s[i], s[j]));
    }
}

/// The keys of `m`, each once, in increasing order.
pub fn btree_keys<V>(m: &BTreeMap<u64, V>) -> (ks: Vec<u64>)
    ensures
        ks@.to_set() == m@.dom(),
        ks@.no_duplicates(),
        forall|i: int, j: int| 0 <= i < j < ks@.len() ==> ks@[i] < ks@[j],
{
    broadcast use vstd::std_specs::btree::group_btree_axioms;

    let mut ks: Vec<u64> = Vec::new();
    let ghost all = m.keys().remaining();
    for k in it: m.keys()
        invariant
            it.seq() == all,
            all == m.keys().remaining(),
            ks@ == all.take(it.index()).unref(),
    {
        ks.push(*k);
        assert(all.take(it.index() + 1).unref() =~= all.take(it.index()).unref().push(*k));
    }
    assert(all.take(all.len() as int) =~= all);
    assert(ks@ == all.unref());
    proof {
        lemma_increasing(all);
    }
    ks
}

/// The keys of `m`, each once.
pub fn hash_keys<V>(m: &HashMap<u64, V>) -> (ks: Vec<u64>)
    ensures
        ks@.to_set() == m@.dom(),
        ks@.no_duplicates(),
{
    broadcast use vstd::std_specs::hash::group_hash_axioms;

    let mut ks: Vec<u64> = Vec::new();
    let ghost all = m.keys().remaining();
    for k in it: m.keys()
        invariant
            it.seq() == all,
            all == m.keys().remaining(),
            ks@ == all.take(it.index()).unref(),
    {
        ks.push(*k);
        assert(all.take(it.index() + 1).unref() =~= all.take(it.index()).unref().push(*k));
    }
    assert(all.take(all.len() as int) =~= all);
    assert(ks@ == all.unref());
    ks
}

} // verus!
