//! Laws that the key types of the library's ordered maps must obey.
use vstd::prelude::*;
use vstd::std_specs::iter::IteratorSpec;
use vstd::std_specs::cmp::OrdSpec;

verus! {

/// A key type whose `Ord` and `Clone` behave as the map model expects:
/// the order is a lawful total order and cloning a key yields an equal key.
/// All integer types meet this; it is what `BTreeMap`'s specification needs.
pub open spec fn lawful_key<K: Ord + Clone>() -> bool {
    &&& vstd::laws_cmp::obeys_cmp::<K>()
    &&& forall|a: K, b: K| #[trigger] vstd::pervasive::strictly_cloned(a, b) ==> a == b
}

/// The keys of a map, listed without repetition in increasing order.
pub open spec fn sorted_keys_of<K, V>(keys: Seq<K>, m: Map<K, V>) -> bool {
    &&& keys.no_duplicates()
    &&& keys.to_set() == m.dom()
    &&& vstd::std_specs::btree::increasing_seq(keys)
}

/// No key is strictly below itself under a lawful order.
pub proof fn lemma_less_irreflexive<K: Ord>(x: K)
    requires
        vstd::laws_cmp::obeys_cmp::<K>(),
    ensures
        !(x.cmp_spec(&x) is Less),
{
    reveal(vstd::laws_cmp::obeys_partial_cmp_spec_properties);
    reveal(vstd::laws_cmp::obeys_cmp_ord);
}

/// Collects the keys of a `BTreeMap`, in the map's order.
pub fn collect_keys<K: Ord + Clone, V>(m: &std::collections::BTreeMap<K, V>) -> (keys: Vec<K>)
    requires
        lawful_key::<K>(),
    ensures
        sorted_keys_of(keys@, m@),
{
    let ghost all = vstd::std_specs::btree::spec_btree_map_iter(m).remaining();
    let ghost ks = all.map_values(|kv: (&K, &V)| *kv.0);
    let mut keys: Vec<K> = Vec::new();
    for kv in it: m.iter()
        invariant
            lawful_key::<K>(),
            it.seq() == all,
            ks == all.map_values(|kv: (&K, &V)| *kv.0),
            keys@ == ks.take(it.index()),
    {
        let c = K::clone(kv.0);
        assert(vstd::pervasive::strictly_cloned(*kv.0, c));
        keys.push(c);
        assert(keys@ =~= ks.take(it.index() + 1));
    }
    proof {
        vstd::std_specs::btree::axiom_spec_btree_map_iter(m);
        assert(keys@ =~= ks);
        vstd::std_specs::btree::axiom_increasing_seq_meaning(ks);
        assert forall|i: int, j: int| 0 <= i < ks.len() && 0 <= j < ks.len() && i != j implies ks[i] != ks[j] by {
            if i < j {
                assert(ks[i].cmp_spec(&ks[j]) is Less);
            } else {
                assert(ks[j].cmp_spec(&ks[i]) is Less);
            }
            if ks[i] == ks[j] {
                lemma_less_irreflexive(ks[i]);
            }
        }
        assert forall|k: K| ks.to_set().contains(k) <==> m@.dom().contains(k) by {
            if m@.dom().contains(k) {
                let idx = all.index_of((&k, &m@[k]));
                assert(ks[idx] == k);
            }
            if ks.to_set().contains(k) {
                let idx = ks.index_of(k);
                assert(m@.contains_key(*all[idx].0));
            }
        }
        assert(ks.to_set() =~= m@.dom());
    }
    keys
}

} // verus!
