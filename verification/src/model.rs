//! The mathematical model of the cache's contents.
//!
//! A cache is modelled as a sequence of `(key view, value view, stamped epoch)`
//! triples ordered from the cold (least recently used) end at index 0 to the
//! hot end at the back. The spec functions here say what a sequence of entries
//! holds, what it costs, and how much of its cold end an eviction at a given
//! epoch threshold removes; the lemmas relate those quantities across the
//! sequence surgery (push, remove, insert) that the executable cache performs.

use vstd::prelude::*;

use crate::estimate::EstimateSize;

verus! {

/// Whether some entry of `s` has key `k`.
pub open spec fn has_key<KV, TV>(s: Seq<(KV, TV, u64)>, k: KV) -> bool {
    exists|i: int| 0 <= i < s.len() && s[i].0 == k
}

/// Whether no two entries of `s` share a key.
pub open spec fn keys_unique<KV, TV>(s: Seq<(KV, TV, u64)>) -> bool {
    forall|i: int, j: int| 0 <= i < j < s.len() ==> s[i].0 != s[j].0
}

/// The value mapped to key `k`, searching from the hot end.
pub open spec fn lookup<KV, TV>(s: Seq<(KV, TV, u64)>, k: KV) -> Option<TV>
    decreases s.len(),
{
    if s.len() == 0 {
        None
    } else if s.last().0 == k {
        Some(s.last().1)
    } else {
        lookup(s.drop_last(), k)
    }
}

/// The byte cost charged for one entry: key cost plus value cost.
pub open spec fn entry_cost<K: EstimateSize, T: EstimateSize>(e: (K::V, T::V, u64)) -> nat {
    K::size_of_view(e.0) + T::size_of_view(e.1)
}

/// The exact total byte cost of all entries of `s`.
pub open spec fn total_cost<K: EstimateSize, T: EstimateSize>(s: Seq<(K::V, T::V, u64)>) -> nat
    decreases s.len(),
{
    if s.len() == 0 {
        0
    } else {
        total_cost::<K, T>(s.drop_last()) + entry_cost::<K, T>(s.last())
    }
}

/// Whether stamped epochs never decrease from the cold end to the hot end.
pub open spec fn epochs_sorted<KV, TV>(s: Seq<(KV, TV, u64)>) -> bool {
    forall|i: int, j: int| 0 <= i <= j < s.len() ==> s[i].2 <= s[j].2
}

/// Whether every entry of `s` is stamped at most `e`.
pub open spec fn epochs_at_most<KV, TV>(s: Seq<(KV, TV, u64)>, e: u64) -> bool {
    forall|i: int| 0 <= i < s.len() ==> s[i].2 <= e
}

/// How many entries an eviction with inclusive threshold `t` removes: the
/// length of the longest prefix of `s` (cold end first) stamped at most `t`.
pub open spec fn evicted_len<KV, TV>(s: Seq<(KV, TV, u64)>, t: u64) -> int
    decreases s.len(),
{
    if s.len() == 0 {
        0
    } else if s[0].2 > t {
        0
    } else {
        1 + evicted_len(s.subrange(1, s.len() as int), t)
    }
}

pub proof fn lemma_total_cost_push<K: EstimateSize, T: EstimateSize>(
    s: Seq<(K::V, T::V, u64)>,
    e: (K::V, T::V, u64),
)
    ensures
        total_cost::<K, T>(s.push(e)) == total_cost::<K, T>(s) + entry_cost::<K, T>(e),
{
    assert(s.push(e).drop_last() =~= s);
    assert(s.push(e).last() == e);
}

pub proof fn lemma_total_cost_remove<K: EstimateSize, T: EstimateSize>(
    s: Seq<(K::V, T::V, u64)>,
    i: int,
)
    requires
        0 <= i < s.len(),
    ensures
        total_cost::<K, T>(s) == total_cost::<K, T>(s.remove(i)) + entry_cost::<K, T>(s[i]),
    decreases s.len(),
{
    if i == s.len() - 1 {
        assert(s.remove(i) =~= s.drop_last());
    } else {
        assert(s.remove(i).drop_last() =~= s.drop_last().remove(i));
        assert(s.remove(i).last() == s.last());
        lemma_total_cost_remove::<K, T>(s.drop_last(), i);
    }
}

pub proof fn lemma_total_cost_insert<K: EstimateSize, T: EstimateSize>(
    s: Seq<(K::V, T::V, u64)>,
    i: int,
    e: (K::V, T::V, u64),
)
    requires
        0 <= i <= s.len(),
    ensures
        total_cost::<K, T>(s.insert(i, e)) == total_cost::<K, T>(s) + entry_cost::<K, T>(e),
    decreases s.len(),
{
    if i == s.len() {
        assert(s.insert(i, e) =~= s.push(e));
        lemma_total_cost_push::<K, T>(s, e);
    } else {
        assert(s.insert(i, e).drop_last() =~= s.drop_last().insert(i, e));
        assert(s.insert(i, e).last() == s.last());
        lemma_total_cost_insert::<K, T>(s.drop_last(), i, e);
    }
}

/// With unique keys, the entry at any index with key `k` is the one `lookup` finds.
pub proof fn lemma_lookup_at<KV, TV>(s: Seq<(KV, TV, u64)>, k: KV, i: int)
    requires
        keys_unique(s),
        0 <= i < s.len(),
        s[i].0 == k,
    ensures
        lookup(s, k) == Some(s[i].1),
    decreases s.len(),
{
    if i == s.len() - 1 {
    } else {
        assert(s.last().0 != k);
        assert(keys_unique(s.drop_last()));
        lemma_lookup_at(s.drop_last(), k, i);
    }
}

/// A key held by no entry has no lookup result.
pub proof fn lemma_lookup_absent<KV, TV>(s: Seq<(KV, TV, u64)>, k: KV)
    requires
        !has_key(s, k),
    ensures
        lookup(s, k) is None,
    decreases s.len(),
{
    if s.len() > 0 {
        assert(s.last() == s[s.len() - 1]);
        assert(!has_key(s.drop_last(), k));
        lemma_lookup_absent(s.drop_last(), k);
    }
}

/// `evicted_len` is the unique boundary: `n` leading entries stamped at most
/// `t`, with either nothing after or a first survivor stamped above `t`.
pub proof fn lemma_evicted_len_is<KV, TV>(s: Seq<(KV, TV, u64)>, t: u64, n: int)
    requires
        0 <= n <= s.len(),
        forall|i: int| 0 <= i < n ==> s[i].2 <= t,
        n == s.len() || s[n].2 > t,
    ensures
        evicted_len(s, t) == n,
    decreases s.len(),
{
    if n == 0 {
    } else {
        let tail = s.subrange(1, s.len() as int);
        assert(forall|i: int| 0 <= i < n - 1 ==> tail[i].2 <= t);
        lemma_evicted_len_is(tail, t, n - 1);
    }
}

/// Removing one entry keeps unique keys, sorted epochs and the epoch bound,
/// and with unique keys the removed key is gone.
pub proof fn lemma_remove_keeps<KV, TV>(s: Seq<(KV, TV, u64)>, i: int, e: u64)
    requires
        0 <= i < s.len(),
    ensures
        keys_unique(s) ==> keys_unique(s.remove(i)),
        epochs_sorted(s) ==> epochs_sorted(s.remove(i)),
        epochs_at_most(s, e) ==> epochs_at_most(s.remove(i), e),
        keys_unique(s) ==> !has_key(s.remove(i), s[i].0),
        forall|k: KV| has_key(s.remove(i), k) ==> has_key(s, k),
{
    assert forall|j: int| 0 <= j < s.remove(i).len() implies #[trigger] s.remove(i)[j] == (
        if j < i {
            s[j]
        } else {
            s[j + 1]
        }
    ) by {}
}

/// Appending an entry at the hot end with a fresh key and an epoch no smaller
/// than every stamp keeps the well-formedness of the sequence.
pub proof fn lemma_push_keeps<KV, TV>(s: Seq<(KV, TV, u64)>, e: (KV, TV, u64), cur: u64)
    requires
        keys_unique(s),
        !has_key(s, e.0),
        epochs_sorted(s),
        epochs_at_most(s, cur),
        e.2 <= cur,
        forall|i: int| 0 <= i < s.len() ==> s[i].2 <= e.2,
    ensures
        keys_unique(s.push(e)),
        epochs_sorted(s.push(e)),
        epochs_at_most(s.push(e), cur),
        has_key(s.push(e), e.0),
{
    assert(s.push(e)[s.len() as int] == e);
}

/// Inserting an entry with a fresh key at a position where its epoch fits the
/// epoch order keeps the well-formedness of the sequence.
pub proof fn lemma_insert_keeps<KV, TV>(s: Seq<(KV, TV, u64)>, i: int, e: (KV, TV, u64), cur: u64)
    requires
        0 <= i <= s.len(),
        keys_unique(s),
        !has_key(s, e.0),
        epochs_sorted(s),
        epochs_at_most(s, cur),
        e.2 <= cur,
        forall|j: int| 0 <= j < i ==> s[j].2 <= e.2,
        forall|j: int| i <= j < s.len() ==> e.2 <= s[j].2,
    ensures
        keys_unique(s.insert(i, e)),
        epochs_sorted(s.insert(i, e)),
        epochs_at_most(s.insert(i, e), cur),
        has_key(s.insert(i, e), e.0),
{
    assert forall|j: int| 0 <= j < s.insert(i, e).len() implies #[trigger] s.insert(i, e)[j] == (
        if j < i {
            s[j]
        } else if j == i {
            e
        } else {
            s[j - 1]
        }
    ) by {}
    assert(s.insert(i, e)[i] == e);
}

/// What survives `evict_except_cur_epoch` when `m` is the minimum of the
/// observed watermark and the local epoch: nothing is evicted at `m == 0`,
/// else everything stamped strictly below `m`.
pub open spec fn evict_except_model<KV, TV>(s: Seq<(KV, TV, u64)>, m: u64) -> Seq<(KV, TV, u64)> {
    if m == 0 {
        s
    } else {
        s.skip(evicted_len(s, (m - 1) as u64))
    }
}

/// Every entry inside the evicted prefix is stamped at most the threshold.
pub proof fn lemma_evicted_prefix_stale<KV, TV>(s: Seq<(KV, TV, u64)>, t: u64)
    ensures
        forall|i: int| 0 <= i < evicted_len(s, t) ==> s[i].2 <= t,
    decreases s.len(),
{
    lemma_evicted_len_bounds(s, t);
    if s.len() > 0 && s[0].2 <= t {
        let tail = s.subrange(1, s.len() as int);
        lemma_evicted_len_bounds(tail, t);
        lemma_evicted_prefix_stale(tail, t);
        assert forall|i: int| 0 <= i < evicted_len(s, t) implies s[i].2 <= t by {
            if i > 0 {
                assert(tail[i - 1].2 <= t);
            }
        }
    }
}

/// The evicted prefix length never exceeds the sequence length.
pub proof fn lemma_evicted_len_bounds<KV, TV>(s: Seq<(KV, TV, u64)>, t: u64)
    ensures
        0 <= evicted_len(s, t) <= s.len(),
    decreases s.len(),
{
    if s.len() > 0 && s[0].2 <= t {
        lemma_evicted_len_bounds(s.subrange(1, s.len() as int), t);
    }
}

} // verus!
