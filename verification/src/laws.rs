//! Laws of the cache, proved over its model.
//!
//! Each public operation of [`crate::cache::ManagedLruCache`] states in its
//! `ensures` how it transforms the model sequence. The lemmas here close the
//! loop across operations: what a later read returns after a put, what
//! survives an eviction, and what an emptied cache answers. The size-exactness
//! and guard-reconciliation properties need no lemma of their own: they are
//! the `wf` conjunct `heap_size == total_cost` that every operation, the guard
//! acquisition and the guard release included, requires and re-establishes.

use vstd::prelude::*;

use crate::estimate::EstimateSize;
use crate::model::entry_cost;
use crate::model::evicted_len;
use crate::model::epochs_sorted;
use crate::model::has_key;
use crate::model::keys_unique;
use crate::model::lemma_evicted_len_bounds;
use crate::model::lemma_total_cost_insert;
use crate::model::lemma_total_cost_remove;
use crate::model::lookup;
use crate::model::total_cost;

verus! {

/// Round trip: a key just put — by `put`, `push` or a guard release at the hot
/// end — maps to the value that was put.
pub proof fn lemma_put_round_trip<KV, TV>(s: Seq<(KV, TV, u64)>, k: KV, v: TV, e: u64)
    ensures
        lookup(s.push((k, v, e)), k) == Some(v),
{
    assert(s.push((k, v, e)).last() == (k, v, e));
}

/// Appending an entry for one key does not change what another key maps to.
pub proof fn lemma_lookup_push_other<KV, TV>(
    s: Seq<(KV, TV, u64)>,
    e: (KV, TV, u64),
    k2: KV,
)
    requires
        e.0 != k2,
    ensures
        lookup(s.push(e), k2) == lookup(s, k2),
{
    assert(s.push(e).drop_last() =~= s);
}

/// Removing the entry of one key does not change what another key maps to.
pub proof fn lemma_lookup_remove_other<KV, TV>(s: Seq<(KV, TV, u64)>, i: int, k2: KV)
    requires
        0 <= i < s.len(),
        s[i].0 != k2,
    ensures
        lookup(s.remove(i), k2) == lookup(s, k2),
    decreases s.len(),
{
    if i == s.len() - 1 {
        assert(s.remove(i) =~= s.drop_last());
        assert(s.last().0 != k2);
    } else {
        assert(s.remove(i).last() == s.last());
        if s.last().0 != k2 {
            assert(s.remove(i).drop_last() =~= s.drop_last().remove(i));
            lemma_lookup_remove_other(s.drop_last(), i, k2);
        }
    }
}

/// Round trip across unrelated writes: a put of key `k` — whether it inserted
/// fresh or replaced — leaves every other key's lookup unchanged.
pub proof fn lemma_put_preserves_other_keys<KV, TV>(
    s: Seq<(KV, TV, u64)>,
    t: Seq<(KV, TV, u64)>,
    k: KV,
    v: TV,
    e: u64,
    k2: KV,
)
    requires
        k2 != k,
        t == s.push((k, v, e)) || exists|i: int|
            0 <= i < s.len() && s[i].0 == k && t == s.remove(i).push((k, v, e)),
    ensures
        lookup(t, k2) == lookup(s, k2),
{
    if t == s.push((k, v, e)) {
        lemma_lookup_push_other(s, (k, v, e), k2);
    } else {
        let i = choose|i: int| 0 <= i < s.len() && s[i].0 == k && t == s.remove(i).push(
            (k, v, e),
        );
        lemma_lookup_push_other(s.remove(i), (k, v, e), k2);
        lemma_lookup_remove_other(s, i, k2);
    }
}

/// Eviction stops exactly at the first survivor: either everything was
/// evicted, or the first remaining entry is stamped above the threshold.
pub proof fn lemma_evicted_first_survivor<KV, TV>(s: Seq<(KV, TV, u64)>, t: u64)
    ensures
        evicted_len(s, t) == s.len() || s[evicted_len(s, t)].2 > t,
    decreases s.len(),
{
    lemma_evicted_len_bounds(s, t);
    if s.len() > 0 && s[0].2 <= t {
        let tail = s.subrange(1, s.len() as int);
        lemma_evicted_len_bounds(tail, t);
        lemma_evicted_first_survivor(tail, t);
    }
}

/// Epoch eviction correctness: with epochs sorted cold-to-hot (as `wf`
/// guarantees), after evicting at threshold `t` every resident entry is
/// stamped above `t`, and the key of every entry that was stamped at most `t`
/// is gone.
pub proof fn lemma_evict_exact<KV, TV>(s: Seq<(KV, TV, u64)>, t: u64)
    requires
        epochs_sorted(s),
        keys_unique(s),
    ensures
        forall|i: int|
            0 <= i < s.skip(evicted_len(s, t)).len() ==> s.skip(evicted_len(s, t))[i].2 > t,
        forall|i: int|
            0 <= i < s.len() && s[i].2 <= t ==> !has_key(s.skip(evicted_len(s, t)), s[i].0),
{
    let n = evicted_len(s, t);
    lemma_evicted_len_bounds(s, t);
    lemma_evicted_first_survivor(s, t);
    let r = s.skip(n);
    assert forall|i: int| 0 <= i < r.len() implies r[i].2 > t by {
        assert(r[i] == s[n + i]);
        assert(s[n].2 <= s[n + i].2);
    }
    assert forall|i: int| 0 <= i < s.len() && s[i].2 <= t implies !has_key(r, s[i].0) by {
        assert(i < n);
        if has_key(r, s[i].0) {
            let j = choose|j: int| 0 <= j < r.len() && r[j].0 == s[i].0;
            assert(s[n + j].0 == s[i].0);
            assert(i < n + j);
        }
    }
}

/// Guard consistency: taking an entry out and putting it back anywhere with a
/// value of any new cost moves the exact total by exactly the difference of
/// the two costs — whether the cost grew or shrank. The acquisition and
/// release of a mutation guard perform exactly these two steps on the model,
/// with the running size following the total on each.
pub proof fn lemma_guard_reconciliation<K: EstimateSize, T: EstimateSize>(
    s: Seq<(K::V, T::V, u64)>,
    i: int,
    j: int,
    e: (K::V, T::V, u64),
)
    requires
        0 <= i < s.len(),
        0 <= j <= s.len() - 1,
    ensures
        total_cost::<K, T>(s.remove(i).insert(j, e)) + entry_cost::<K, T>(s[i]) == total_cost::<
            K,
            T,
        >(s) + entry_cost::<K, T>(e),
{
    lemma_total_cost_remove::<K, T>(s, i);
    lemma_total_cost_insert::<K, T>(s.remove(i), j, e);
}

/// An emptied cache answers every read empty: no key is held and no lookup
/// succeeds.
pub proof fn lemma_empty_reads<KV, TV>(k: KV)
    ensures
        !has_key(Seq::<(KV, TV, u64)>::empty(), k),
        lookup(Seq::<(KV, TV, u64)>::empty(), k) is None,
{
}

} // verus!
