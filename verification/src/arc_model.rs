//! How maps whose values sit behind `Arc` are seen in contracts: by the
//! values the `Arc`s point to.
use std::sync::Arc;
use vstd::prelude::*;

verus! {

/// A map of shared values, seen by the values themselves.
pub open spec fn shared_values<K, V>(m: Map<K, Arc<V>>) -> Map<K, V> {
    m.map_values(|a: Arc<V>| *a)
}

/// A map of flagged shared values, seen by the flags and the values themselves.
pub open spec fn flagged_values<K, V>(m: Map<K, (bool, Arc<V>)>) -> Map<K, (bool, V)> {
    m.map_values(|e: (bool, Arc<V>)| (e.0, *e.1))
}

pub proof fn lemma_flagged_insert<K, V>(m: Map<K, (bool, Arc<V>)>, k: K, f: bool, a: Arc<V>)
    ensures
        flagged_values(m.insert(k, (f, a))) == flagged_values(m).insert(k, (f, *a)),
{
    assert(flagged_values(m.insert(k, (f, a))) =~= flagged_values(m).insert(k, (f, *a)));
}

pub proof fn lemma_flagged_remove<K, V>(m: Map<K, (bool, Arc<V>)>, k: K)
    ensures
        flagged_values(m.remove(k)) == flagged_values(m).remove(k),
{
    assert(flagged_values(m.remove(k)) =~= flagged_values(m).remove(k));
}

pub proof fn lemma_shared_insert<K, V>(m: Map<K, Arc<V>>, k: K, a: Arc<V>)
    ensures
        shared_values(m.insert(k, a)) == shared_values(m).insert(k, *a),
{
    assert(shared_values(m.insert(k, a)) =~= shared_values(m).insert(k, *a));
}

pub proof fn lemma_shared_remove<K, V>(m: Map<K, Arc<V>>, k: K)
    ensures
        shared_values(m.remove(k)) == shared_values(m).remove(k),
{
    assert(shared_values(m.remove(k)) =~= shared_values(m).remove(k));
}

} // verus!
