//! The epoch-bounded, memory-accounted LRU cache.
//!
//! A `ManagedLruCache` keeps a recency-ordered store of `(key, value)` entries,
//! each stamped with the local epoch current at its last insertion or
//! promotion. Eviction is driven not by a fixed capacity but by a shared
//! watermark epoch that an external memory-pressure controller advances:
//! `evict` drops every entry stamped at or below the watermark, scanning from
//! the cold end and stopping at the first survivor. The cache maintains an
//! exact running byte total of all resident keys and values and reports it to
//! a gauge of the external metrics sink, throttled so that the gauge never
//! lags the true total by more than a fixed threshold.
//!
//! The entry store is a vector ordered from the cold end (index 0, least
//! recently used) to the hot end (the back). Its abstract model, the spec
//! functions over it and the well-formedness predicate `wf` live in
//! [`crate::model`]; every public operation requires and preserves `wf`.

use vstd::prelude::*;

use core::sync::atomic::AtomicU64;
use core::sync::atomic::Ordering;
use std::sync::Arc;

use crate::estimate::CacheKey;
use crate::estimate::EstimateSize;
use crate::metrics::MetricGauge;
use crate::metrics::MetricsInfo;
use crate::model::epochs_at_most;
use crate::model::epochs_sorted;
use crate::model::evicted_len;
use crate::model::has_key;
use crate::model::keys_unique;
use crate::model::lemma_evicted_len_is;
use crate::model::lemma_insert_keeps;
use crate::model::lemma_lookup_absent;
use crate::model::lemma_lookup_at;
use crate::model::lemma_push_keeps;
use crate::model::lemma_remove_keeps;
use crate::model::lemma_total_cost_insert;
use crate::model::lemma_total_cost_push;
use crate::model::lemma_total_cost_remove;
use crate::model::lookup;
use crate::model::total_cost;

verus! {

/// Report the running size to the gauge only when it drifted from the last
/// reported value by more than this many bytes.
pub const REPORT_BYTES_THRESHOLD: usize = 4096 * 1024;

/// Whether two running sizes are within the reporting threshold of each other.
pub open spec fn within_threshold(a: usize, b: usize) -> bool {
    a <= b + REPORT_BYTES_THRESHOLD && b <= a + REPORT_BYTES_THRESHOLD
}

/// The physical time, in milliseconds, that an epoch encodes in its upper
/// bits.
pub open spec fn epoch_physical_ms_spec(e: u64) -> u64 {
    e >> 16
}

/// Translate an epoch into the physical milliseconds it encodes.
pub fn epoch_physical_ms(e: u64) -> (r: u64)
    ensures
        r == epoch_physical_ms_spec(e),
{
    e >> 16
}

/// One resident entry: a key, its value, and the local epoch stamped at the
/// entry's last insertion or promotion.
struct Entry<K, T> {
    key: K,
    value: T,
    epoch: u64,
}

/// Push `heap_size` to the size gauge exactly when it drifted more than the
/// threshold away from the last reported value, and record what was reported.
fn report_memory_usage(gauge: &MetricGauge, heap_size: usize, last_reported: &mut usize) -> (r:
    bool)
    ensures
        r == !within_threshold(heap_size, *old(last_reported)),
        *final(last_reported) == if r {
            heap_size
        } else {
            *old(last_reported)
        },
        within_threshold(heap_size, *final(last_reported)),
{
    let diff = if heap_size >= *last_reported {
        heap_size - *last_reported
    } else {
        *last_reported - heap_size
    };
    if diff > REPORT_BYTES_THRESHOLD {
        gauge.set(#[verifier::truncate] (heap_size as i64));
        *last_reported = heap_size;
        true
    } else {
        false
    }
}

/// The epoch-bounded, memory-accounted LRU cache. One instance is owned by a
/// single operator context; only the watermark it reads is shared.
pub struct ManagedLruCache<K: CacheKey, V: EstimateSize> {
    entries: Vec<Entry<K, V>>,
    /// Entries stamped at or below this shared epoch should be evicted.
    /// Written only by the external memory-pressure controller.
    watermark_epoch: Arc<AtomicU64>,
    /// The exact total byte cost of all resident keys and values.
    kv_heap_size: usize,
    /// The local epoch stamped onto inserted and promoted entries.
    cur_epoch: u64,
    /// The hard entry-count bound that `push` enforces; `None` is unbounded.
    capacity: Option<usize>,
    /// The gauge holding the reported running size.
    memory_usage_metrics: MetricGauge,
    /// The gauge holding the physical time of the last eviction watermark.
    lru_evicted_watermark_time_ms: MetricGauge,
    /// The running size as last pushed to the gauge.
    last_reported_size_bytes: usize,
}

/// A scoped handle for in-place mutation of one cached value. `get_mut` and
/// `peek_mut` move the entry out of the cache into the guard; `release` moves
/// it back and reconciles the running size with the value's new cost. Dropping
/// a guard without releasing it discards the entry, so the handle must be
/// used.
#[must_use]
pub struct MutGuard<K, V> {
    /// The key of the guarded entry.
    pub key: K,
    /// The guarded value, free to mutate while the guard is held.
    pub value: V,
    /// Where `release` reinserts the entry: clamped to the cold-to-hot
    /// position it came from, with `usize::MAX` standing for the hot end.
    pub index: usize,
    /// The epoch `release` stamps onto the reinserted entry.
    pub epoch: u64,
}

impl<K: CacheKey, V: EstimateSize> View for ManagedLruCache<K, V> {
    type V = Seq<(<K as View>::V, <V as View>::V, u64)>;

    closed spec fn view(&self) -> Self::V {
        self.entries@.map_values(|e: Entry<K, V>| (e.key@, e.value@, e.epoch))
    }
}

impl<K: CacheKey, V: EstimateSize> ManagedLruCache<K, V> {
    /// The running byte total of all resident keys and values.
    pub closed spec fn heap_size_spec(&self) -> usize {
        self.kv_heap_size
    }

    /// The local epoch stamped onto inserted and promoted entries.
    pub closed spec fn current_epoch_spec(&self) -> u64 {
        self.cur_epoch
    }

    /// The hard entry-count bound enforced by `push`.
    pub closed spec fn capacity_spec(&self) -> Option<usize> {
        self.capacity
    }

    /// The running size as last pushed to the gauge.
    pub closed spec fn last_reported_spec(&self) -> usize {
        self.last_reported_size_bytes
    }

    /// Well-formedness, established by the constructors and preserved by every
    /// operation: keys are unique; stamped epochs never decrease from the cold
    /// end to the hot end and never exceed the local epoch; the running size
    /// equals the exact total cost of the resident entries; and the reported
    /// size lags the running size by at most the threshold.
    pub open spec fn wf(&self) -> bool {
        &&& keys_unique(self@)
        &&& epochs_sorted(self@)
        &&& epochs_at_most(self@, self.current_epoch_spec())
        &&& self.heap_size_spec() as nat == total_cost::<K, V>(self@)
        &&& within_threshold(self.heap_size_spec(), self.last_reported_spec())
    }

    /// Whether a guard can be released into this cache state: its key is not
    /// resident, and its stamp fits the epoch order at its reinsertion point.
    pub open spec fn guard_fits(&self, g: MutGuard<K, V>) -> bool {
        &&& !has_key(self@, g.key@)
        &&& g.epoch <= self.current_epoch_spec()
        &&& forall|j: int| 0 <= j < self@.len() && j < g.index as int ==> self@[j].2 <= g.epoch
        &&& forall|j: int| g.index as int <= j < self@.len() ==> g.epoch <= self@[j].2
    }

    /// Create a cache that reads the given shared watermark, reports through
    /// the given gauges, and lets `push` enforce `capacity` if one is given.
    /// The size gauge starts out reset to zero.
    pub fn new_inner(
        watermark_epoch: Arc<AtomicU64>,
        metrics_info: MetricsInfo,
        capacity: Option<usize>,
    ) -> (r: Self)
        ensures
            r.wf(),
            r@ == Seq::<(<K as View>::V, <V as View>::V, u64)>::empty(),
            r.heap_size_spec() == 0,
            r.current_epoch_spec() == 0,
            r.capacity_spec() == capacity,
            r.last_reported_spec() == 0,
    {
        let MetricsInfo { memory_usage, evicted_watermark_time_ms } = metrics_info;
        memory_usage.set(0);
        let r = ManagedLruCache {
            entries: Vec::new(),
            watermark_epoch,
            kv_heap_size: 0,
            cur_epoch: 0,
            capacity,
            memory_usage_metrics: memory_usage,
            lru_evicted_watermark_time_ms: evicted_watermark_time_ms,
            last_reported_size_bytes: 0,
        };
        proof {
            assert(r@ =~= Seq::<(<K as View>::V, <V as View>::V, u64)>::empty());
        }
        r
    }

    /// Find the position of the entry holding `k`, if any.
    fn find(&self, k: &K) -> (r: Option<usize>)
        ensures
            match r {
                Some(i) => i < self@.len() && self@[i as int].0 == k@,
                None => !has_key(self@, k@),
            },
    {
        let n = self.entries.len();
        for i in 0..n
            invariant
                n == self.entries.len(),
                forall|j: int| 0 <= j < i ==> self@[j].0 != k@,
        {
            if self.entries[i].key.key_eq(k) {
                return Some(i);
            }
        }
        None
    }

    /// Set the local epoch that subsequent inserts and promotions stamp.
    /// Epochs mark dataflow progress, so they only move forward.
    pub fn update_epoch(&mut self, epoch: u64)
        requires
            old(self).wf(),
            epoch >= old(self).current_epoch_spec(),
        ensures
            final(self).wf(),
            final(self)@ == old(self)@,
            final(self).current_epoch_spec() == epoch,
            final(self).heap_size_spec() == old(self).heap_size_spec(),
            final(self).capacity_spec() == old(self).capacity_spec(),
            final(self).last_reported_spec() == old(self).last_reported_spec(),
    {
        self.cur_epoch = epoch;
    }

    /// The local epoch stamped onto inserted and promoted entries.
    pub fn current_epoch(&self) -> (r: u64)
        ensures
            r == self.current_epoch_spec(),
    {
        self.cur_epoch
    }

    /// The number of resident entries.
    pub fn len(&self) -> (r: usize)
        ensures
            r == self@.len(),
    {
        self.entries.len()
    }

    /// Whether no entry is resident.
    pub fn is_empty(&self) -> (r: bool)
        ensures
            r == (self@.len() == 0),
    {
        self.entries.len() == 0
    }

    /// The running byte total of all resident keys and values.
    pub fn heap_size(&self) -> (r: usize)
        ensures
            r == self.heap_size_spec(),
    {
        self.kv_heap_size
    }

    /// Whether an entry with key `k` is resident.
    pub fn contains(&self, k: &K) -> (r: bool)
        ensures
            r == has_key(self@, k@),
    {
        self.find(k).is_some()
    }

    /// Read the value under `k` without promoting its recency.
    pub fn peek(&self, k: &K) -> (r: Option<&V>)
        requires
            self.wf(),
        ensures
            match r {
                Some(v) => lookup(self@, k@) == Some(v@) && has_key(self@, k@),
                None => !has_key(self@, k@) && lookup(self@, k@) is None,
            },
    {
        match self.find(k) {
            Some(i) => {
                proof {
                    lemma_lookup_at(self@, k@, i as int);
                }
                Some(&self.entries[i].value)
            },
            None => {
                proof {
                    lemma_lookup_absent(self@, k@);
                }
                None
            },
        }
    }

    /// Insert `v` under `k` at the hot end, stamped with the local epoch,
    /// replacing and returning the value previously under `k` if one was
    /// resident. The running size grows by the new entry's cost and shrinks by
    /// the replaced entry's cost.
    pub fn put(&mut self, k: K, v: V) -> (r: Option<V>)
        requires
            old(self).wf(),
            total_cost::<K, V>(old(self)@) + K::size_of_view(k@) + V::size_of_view(v@)
                <= usize::MAX,
        ensures
            final(self).wf(),
            final(self).current_epoch_spec() == old(self).current_epoch_spec(),
            final(self).capacity_spec() == old(self).capacity_spec(),
            lookup(final(self)@, k@) == Some(v@),
            match r {
                None => !has_key(old(self)@, k@) && final(self)@ == old(self)@.push(
                    (k@, v@, old(self).current_epoch_spec()),
                ),
                Some(ov) => exists|i: int|
                    0 <= i < old(self)@.len() && old(self)@[i].0 == k@ && ov@ == old(self)@[i].1
                        && final(self)@ == old(self)@.remove(i).push(
                        (k@, v@, old(self).current_epoch_spec()),
                    ),
            },
    {
        let key_size = k.estimated_size();
        let val_size = v.estimated_size();
        let epoch = self.cur_epoch;
        let found = self.find(&k);
        match found {
            Some(i) => {
                let ghost s0 = self@;
                let replaced = self.entries.remove(i);
                proof {
                    assert(self@ =~= s0.remove(i as int));
                    lemma_total_cost_remove::<K, V>(s0, i as int);
                    lemma_remove_keeps::<<K as View>::V, <V as View>::V>(
                        s0,
                        i as int,
                        self.cur_epoch,
                    );
                }
                let ghost s1 = self@;
                self.entries.push(Entry { key: k, value: v, epoch });
                proof {
                    assert(self@ =~= s1.push((k@, v@, epoch)));
                    lemma_total_cost_push::<K, V>(s1, (k@, v@, epoch));
                    lemma_push_keeps(s1, (k@, v@, epoch), epoch);
                    lemma_lookup_at(self@, k@, self@.len() - 1);
                }
                self.kv_heap_size = self.kv_heap_size.saturating_add(key_size + val_size);
                report_memory_usage(
                    &self.memory_usage_metrics,
                    self.kv_heap_size,
                    &mut self.last_reported_size_bytes,
                );
                let replaced_size = replaced.value.estimated_size();
                self.kv_heap_size = self.kv_heap_size.saturating_sub(key_size + replaced_size);
                report_memory_usage(
                    &self.memory_usage_metrics,
                    self.kv_heap_size,
                    &mut self.last_reported_size_bytes,
                );
                Some(replaced.value)
            },
            None => {
                let ghost s0 = self@;
                self.entries.push(Entry { key: k, value: v, epoch });
                proof {
                    assert(self@ =~= s0.push((k@, v@, epoch)));
                    lemma_total_cost_push::<K, V>(s0, (k@, v@, epoch));
                    lemma_push_keeps(s0, (k@, v@, epoch), epoch);
                    lemma_lookup_at(self@, k@, self@.len() - 1);
                }
                self.kv_heap_size = self.kv_heap_size.saturating_add(key_size + val_size);
                report_memory_usage(
                    &self.memory_usage_metrics,
                    self.kv_heap_size,
                    &mut self.last_reported_size_bytes,
                );
                None
            },
        }
    }

    /// Read the value under `k` and promote its recency: the entry moves to
    /// the hot end and is re-stamped with the local epoch. The running size is
    /// unchanged.
    pub fn get(&mut self, k: &K) -> (r: Option<&V>)
        requires
            old(self).wf(),
        ensures
            final(self).wf(),
            final(self).current_epoch_spec() == old(self).current_epoch_spec(),
            final(self).capacity_spec() == old(self).capacity_spec(),
            final(self).heap_size_spec() == old(self).heap_size_spec(),
            final(self).last_reported_spec() == old(self).last_reported_spec(),
            lookup(final(self)@, k@) == lookup(old(self)@, k@),
            match r {
                Some(v) => lookup(old(self)@, k@) == Some(v@) && exists|i: int|
                    0 <= i < old(self)@.len() && old(self)@[i].0 == k@ && final(self)@ == old(
                        self,
                    )@.remove(i).push((k@, old(self)@[i].1, old(self).current_epoch_spec())),
                None => !has_key(old(self)@, k@) && final(self)@ == old(self)@,
            },
    {
        let found = self.find(k);
        match found {
            Some(i) => {
                let ghost s0 = self@;
                proof {
                    lemma_lookup_at(s0, k@, i as int);
                }
                let e = self.entries.remove(i);
                proof {
                    assert(self@ =~= s0.remove(i as int));
                    lemma_total_cost_remove::<K, V>(s0, i as int);
                    lemma_remove_keeps::<<K as View>::V, <V as View>::V>(
                        s0,
                        i as int,
                        self.cur_epoch,
                    );
                }
                let ghost s1 = self@;
                let epoch = self.cur_epoch;
                self.entries.push(Entry { key: e.key, value: e.value, epoch });
                proof {
                    let ghost ne = (s0[i as int].0, s0[i as int].1, epoch);
                    assert(self@ =~= s1.push(ne));
                    lemma_total_cost_push::<K, V>(s1, ne);
                    lemma_push_keeps(s1, ne, epoch);
                    lemma_lookup_at(self@, k@, self@.len() - 1);
                }
                let idx = self.entries.len() - 1;
                Some(&self.entries[idx].value)
            },
            None => {
                proof {
                    lemma_lookup_absent(self@, k@);
                }
                None
            },
        }
    }

    /// Insert like `put`, but on a bounded cache additionally enforce the
    /// hard entry-count capacity: when `k` is fresh and the cache is full, the
    /// single least recently used entry is evicted regardless of its epoch (a
    /// capacity safety valve, distinct from epoch-driven eviction — it can
    /// drop an entry stamped in the in-flight epoch that
    /// `evict_except_cur_epoch` would have kept) and returned. A replaced
    /// value comes back under its own key.
    pub fn push(&mut self, k: K, v: V) -> (r: Option<(K, V)>)
        requires
            old(self).wf(),
            total_cost::<K, V>(old(self)@) + K::size_of_view(k@) + V::size_of_view(v@)
                <= usize::MAX,
        ensures
            final(self).wf(),
            final(self).current_epoch_spec() == old(self).current_epoch_spec(),
            final(self).capacity_spec() == old(self).capacity_spec(),
            lookup(final(self)@, k@) == Some(v@),
            match r {
                None => {
                    &&& !has_key(old(self)@, k@)
                    &&& (match old(self).capacity_spec() {
                        Option::None => true,
                        Option::Some(c) => old(self)@.len() < c || old(self)@.len() == 0,
                    })
                    &&& final(self)@ == old(self)@.push((k@, v@, old(self).current_epoch_spec()))
                },
                Some((ok, ov)) => {
                    ||| (has_key(old(self)@, k@) && ok@ == k@ && exists|i: int|
                        0 <= i < old(self)@.len() && old(self)@[i].0 == k@ && ov@ == old(
                            self,
                        )@[i].1 && final(self)@ == old(self)@.remove(i).push(
                            (k@, v@, old(self).current_epoch_spec()),
                        ))
                    ||| {
                        &&& !has_key(old(self)@, k@)
                        &&& old(self).capacity_spec() matches Option::Some(c) && old(
                            self,
                        )@.len() >= c
                        &&& old(self)@.len() > 0
                        &&& ok@ == old(self)@[0].0
                        &&& ov@ == old(self)@[0].1
                        &&& final(self)@ == old(self)@.remove(0).push(
                            (k@, v@, old(self).current_epoch_spec()),
                        )
                    }
                },
            },
    {
        let key_size = k.estimated_size();
        let val_size = v.estimated_size();
        let epoch = self.cur_epoch;
        let found = self.find(&k);
        match found {
            Some(i) => {
                let ghost s0 = self@;
                let replaced = self.entries.remove(i);
                proof {
                    assert(self@ =~= s0.remove(i as int));
                    lemma_total_cost_remove::<K, V>(s0, i as int);
                    lemma_remove_keeps::<<K as View>::V, <V as View>::V>(
                        s0,
                        i as int,
                        self.cur_epoch,
                    );
                }
                let ghost s1 = self@;
                self.entries.push(Entry { key: k, value: v, epoch });
                proof {
                    assert(self@ =~= s1.push((k@, v@, epoch)));
                    lemma_total_cost_push::<K, V>(s1, (k@, v@, epoch));
                    lemma_push_keeps(s1, (k@, v@, epoch), epoch);
                    lemma_lookup_at(self@, k@, self@.len() - 1);
                }
                self.kv_heap_size = self.kv_heap_size.saturating_add(key_size + val_size);
                report_memory_usage(
                    &self.memory_usage_metrics,
                    self.kv_heap_size,
                    &mut self.last_reported_size_bytes,
                );
                let replaced_key_size = replaced.key.estimated_size();
                let replaced_val_size = replaced.value.estimated_size();
                self.kv_heap_size = self.kv_heap_size.saturating_sub(
                    replaced_key_size + replaced_val_size,
                );
                report_memory_usage(
                    &self.memory_usage_metrics,
                    self.kv_heap_size,
                    &mut self.last_reported_size_bytes,
                );
                Some((replaced.key, replaced.value))
            },
            None => {
                let at_capacity = match self.capacity {
                    Option::Some(c) => self.entries.len() >= c && self.entries.len() > 0,
                    Option::None => false,
                };
                let victim = if at_capacity {
                    let ghost s0 = self@;
                    let e = self.entries.remove(0);
                    proof {
                        assert(self@ =~= s0.remove(0));
                        lemma_total_cost_remove::<K, V>(s0, 0);
                        lemma_remove_keeps::<<K as View>::V, <V as View>::V>(
                            s0,
                            0,
                            self.cur_epoch,
                        );
                    }
                    Some(e)
                } else {
                    None
                };
                let ghost s1 = self@;
                self.entries.push(Entry { key: k, value: v, epoch });
                proof {
                    assert(self@ =~= s1.push((k@, v@, epoch)));
                    lemma_total_cost_push::<K, V>(s1, (k@, v@, epoch));
                    lemma_push_keeps(s1, (k@, v@, epoch), epoch);
                    lemma_lookup_at(self@, k@, self@.len() - 1);
                }
                self.kv_heap_size = self.kv_heap_size.saturating_add(key_size + val_size);
                report_memory_usage(
                    &self.memory_usage_metrics,
                    self.kv_heap_size,
                    &mut self.last_reported_size_bytes,
                );
                match victim {
                    Some(e) => {
                        let victim_key_size = e.key.estimated_size();
                        let victim_val_size = e.value.estimated_size();
                        self.kv_heap_size = self.kv_heap_size.saturating_sub(
                            victim_key_size + victim_val_size,
                        );
                        report_memory_usage(
                            &self.memory_usage_metrics,
                            self.kv_heap_size,
                            &mut self.last_reported_size_bytes,
                        );
                        Some((e.key, e.value))
                    },
                    None => None,
                }
            },
        }
    }

    /// Record the physical time that the eviction threshold `epoch` encodes
    /// into the watermark-time gauge, for observability of how stale the
    /// surviving contents are.
    fn report_evicted_watermark_time(&self, epoch: u64) {
        let ms = epoch_physical_ms(epoch);
        self.lru_evicted_watermark_time_ms.set(#[verifier::truncate] (ms as i64));
    }

    /// Evict every entry stamped at or below `epoch`, in LRU-to-MRU order,
    /// stopping at the first survivor; subtract each evicted entry's cost from
    /// the running size, and record `epoch`'s physical time whether or not
    /// anything was evicted. The cost is bounded by the number of entries
    /// actually removed.
    pub fn evict_by_epoch(&mut self, epoch: u64)
        requires
            old(self).wf(),
        ensures
            final(self).wf(),
            final(self).current_epoch_spec() == old(self).current_epoch_spec(),
            final(self).capacity_spec() == old(self).capacity_spec(),
            final(self)@ == old(self)@.skip(evicted_len(old(self)@, epoch)),
    {
        let ghost s0 = old(self)@;
        let ghost mut removed: int = 0;
        loop
            invariant
                self.wf(),
                0 <= removed <= s0.len(),
                self@ == s0.subrange(removed, s0.len() as int),
                forall|i: int| 0 <= i < removed ==> s0[i].2 <= epoch,
                self.cur_epoch == old(self).cur_epoch,
                self.capacity == old(self).capacity,
                self.watermark_epoch == old(self).watermark_epoch,
                self.memory_usage_metrics == old(self).memory_usage_metrics,
                self.lru_evicted_watermark_time_ms == old(self).lru_evicted_watermark_time_ms,
            ensures
                self@.len() == 0 || self@[0].2 > epoch,
            decreases self@.len(),
        {
            if self.entries.len() == 0 || self.entries[0].epoch > epoch {
                break ;
            }
            let ghost s1 = self@;
            let e = self.entries.remove(0);
            proof {
                assert(self@ =~= s1.remove(0));
                assert(self@ =~= s0.subrange(removed + 1, s0.len() as int));
                lemma_total_cost_remove::<K, V>(s1, 0);
                lemma_remove_keeps::<<K as View>::V, <V as View>::V>(s1, 0, self.cur_epoch);
                removed = removed + 1;
            }
            let key_size = e.key.estimated_size();
            let val_size = e.value.estimated_size();
            self.kv_heap_size = self.kv_heap_size.saturating_sub(key_size + val_size);
            report_memory_usage(
                &self.memory_usage_metrics,
                self.kv_heap_size,
                &mut self.last_reported_size_bytes,
            );
        }
        proof {
            lemma_evicted_len_is(s0, epoch, removed);
            assert(self@ =~= s0.skip(removed));
        }
        self.report_evicted_watermark_time(epoch);
    }

    /// Evict everything stamped at or below the shared watermark's current
    /// value. The watermark is advanced concurrently by the external
    /// controller, so the threshold is whatever one relaxed load observed.
    pub fn evict(&mut self)
        requires
            old(self).wf(),
        ensures
            final(self).wf(),
            final(self).current_epoch_spec() == old(self).current_epoch_spec(),
            final(self).capacity_spec() == old(self).capacity_spec(),
            exists|w: u64| final(self)@ == old(self)@.skip(evicted_len(old(self)@, w)),
    {
        let w = self.load_watermark();
        self.evict_by_epoch(w);
    }

    /// Evict like `evict`, but never below the local current epoch: entries
    /// stamped in the in-flight epoch survive even when the watermark has
    /// already passed it. Only entries stamped strictly below
    /// `min(watermark, local epoch)` are removed.
    pub fn evict_except_cur_epoch(&mut self)
        requires
            old(self).wf(),
        ensures
            final(self).wf(),
            final(self).current_epoch_spec() == old(self).current_epoch_spec(),
            final(self).capacity_spec() == old(self).capacity_spec(),
            exists|m: u64|
                m <= old(self).current_epoch_spec() && final(self)@ == crate::model::evict_except_model(
                    old(self)@,
                    m,
                ),
            forall|i: int|
                0 <= i < old(self)@.len() && old(self)@[i].2 >= old(self).current_epoch_spec()
                    ==> has_key(final(self)@, old(self)@[i].0),
    {
        let w = self.load_watermark();
        let cur = self.cur_epoch;
        let m = if w < cur {
            w
        } else {
            cur
        };
        if m == 0 {
            self.report_evicted_watermark_time(m);
            proof {
                assert(self@ == crate::model::evict_except_model(old(self)@, 0));
                assert forall|i: int|
                    0 <= i < old(self)@.len() && old(self)@[i].2 >= old(
                        self,
                    ).current_epoch_spec() implies has_key(self@, old(self)@[i].0) by {
                    assert(self@[i].0 == old(self)@[i].0);
                }
            }
        } else {
            let ghost s0 = self@;
            self.evict_by_epoch(m - 1);
            proof {
                let n = evicted_len(s0, (m - 1) as u64);
                crate::model::lemma_evicted_len_bounds(s0, (m - 1) as u64);
                crate::model::lemma_evicted_prefix_stale(s0, (m - 1) as u64);
                assert(self@ == crate::model::evict_except_model(old(self)@, m));
                assert forall|i: int|
                    0 <= i < s0.len() && s0[i].2 >= old(self).current_epoch_spec() implies has_key(
                    self@,
                    s0[i].0,
                ) by {
                    assert(s0[i].2 >= m);
                    assert(i >= n);
                    assert(self@[i - n] == s0[i]);
                }
            }
        }
    }

    /// Move the entry under `k` out of the cache into a mutation guard,
    /// promoting it: `release` will reinsert it at the hot end, stamped with
    /// the local epoch current now. While the guard is held the entry is not
    /// resident and the running size excludes it, so the size invariant holds
    /// exactly at every point.
    pub fn get_mut(&mut self, k: &K) -> (r: Option<MutGuard<K, V>>)
        requires
            old(self).wf(),
        ensures
            final(self).wf(),
            final(self).current_epoch_spec() == old(self).current_epoch_spec(),
            final(self).capacity_spec() == old(self).capacity_spec(),
            match r {
                Some(g) => {
                    &&& g.key@ == k@
                    &&& g.epoch == old(self).current_epoch_spec()
                    &&& g.index == usize::MAX
                    &&& lookup(old(self)@, k@) == Some(g.value@)
                    &&& exists|i: int|
                        0 <= i < old(self)@.len() && old(self)@[i].0 == k@ && g.value@ == old(
                            self,
                        )@[i].1 && final(self)@ == old(self)@.remove(i)
                    &&& final(self).guard_fits(g)
                },
                None => {
                    &&& !has_key(old(self)@, k@)
                    &&& final(self)@ == old(self)@
                    &&& final(self).heap_size_spec() == old(self).heap_size_spec()
                    &&& final(self).last_reported_spec() == old(self).last_reported_spec()
                },
            },
    {
        let found = self.find(k);
        match found {
            Some(i) => {
                let ghost s0 = self@;
                proof {
                    lemma_lookup_at(s0, k@, i as int);
                }
                let e = self.entries.remove(i);
                proof {
                    assert(self@ =~= s0.remove(i as int));
                    lemma_total_cost_remove::<K, V>(s0, i as int);
                    lemma_remove_keeps::<<K as View>::V, <V as View>::V>(
                        s0,
                        i as int,
                        self.cur_epoch,
                    );
                }
                let key_size = e.key.estimated_size();
                let val_size = e.value.estimated_size();
                self.kv_heap_size = self.kv_heap_size.saturating_sub(key_size + val_size);
                report_memory_usage(
                    &self.memory_usage_metrics,
                    self.kv_heap_size,
                    &mut self.last_reported_size_bytes,
                );
                let g = MutGuard { key: e.key, value: e.value, index: usize::MAX, epoch: self.cur_epoch };
                let remaining = self.entries.len();
                proof {
                    assert(self@.len() == remaining as int);
                    assert forall|j: int|
                        0 <= j < self@.len() && j < g.index as int implies self@[j].2
                        <= g.epoch by {}
                }
                Some(g)
            },
            None => None,
        }
    }

    /// Move the entry under `k` out of the cache into a mutation guard without
    /// promoting it: `release` will reinsert it at the position it came from,
    /// with its original stamp, so the recency order and the epoch order are
    /// restored.
    pub fn peek_mut(&mut self, k: &K) -> (r: Option<MutGuard<K, V>>)
        requires
            old(self).wf(),
        ensures
            final(self).wf(),
            final(self).current_epoch_spec() == old(self).current_epoch_spec(),
            final(self).capacity_spec() == old(self).capacity_spec(),
            match r {
                Some(g) => {
                    &&& g.key@ == k@
                    &&& lookup(old(self)@, k@) == Some(g.value@)
                    &&& (g.index as int) < old(self)@.len() && old(self)@[g.index as int] == (
                        k@,
                        g.value@,
                        g.epoch,
                    )
                    &&& final(self)@ == old(self)@.remove(g.index as int)
                    &&& final(self).guard_fits(g)
                },
                None => {
                    &&& !has_key(old(self)@, k@)
                    &&& final(self)@ == old(self)@
                    &&& final(self).heap_size_spec() == old(self).heap_size_spec()
                    &&& final(self).last_reported_spec() == old(self).last_reported_spec()
                },
            },
    {
        let found = self.find(k);
        match found {
            Some(i) => {
                let ghost s0 = self@;
                proof {
                    lemma_lookup_at(s0, k@, i as int);
                }
                let e = self.entries.remove(i);
                proof {
                    assert(self@ =~= s0.remove(i as int));
                    lemma_total_cost_remove::<K, V>(s0, i as int);
                    lemma_remove_keeps::<<K as View>::V, <V as View>::V>(
                        s0,
                        i as int,
                        self.cur_epoch,
                    );
                }
                let key_size = e.key.estimated_size();
                let val_size = e.value.estimated_size();
                self.kv_heap_size = self.kv_heap_size.saturating_sub(key_size + val_size);
                report_memory_usage(
                    &self.memory_usage_metrics,
                    self.kv_heap_size,
                    &mut self.last_reported_size_bytes,
                );
                let g = MutGuard { key: e.key, value: e.value, index: i, epoch: e.epoch };
                proof {
                    assert forall|j: int|
                        0 <= j < self@.len() && j < g.index as int implies self@[j].2
                        <= g.epoch by {
                        assert(self@[j] == s0[j]);
                    }
                    assert forall|j: int|
                        g.index as int <= j < self@.len() implies g.epoch <= self@[j].2 by {
                        assert(self@[j] == s0[j + 1]);
                    }
                }
                Some(g)
            },
            None => None,
        }
    }

    /// Give a guarded entry back to the cache: reinsert it at the position the
    /// guard carries (clamped to the hot end) with the stamp it carries, and
    /// add the entry's cost — the key's, and the value's as it stands *after*
    /// any mutation — to the running size. This is the release step of the
    /// guard pattern: it reconciles the accounting whatever the mutation did
    /// to the value's cost.
    pub fn release(&mut self, g: MutGuard<K, V>)
        requires
            old(self).wf(),
            old(self).guard_fits(g),
            total_cost::<K, V>(old(self)@) + K::size_of_view(g.key@) + V::size_of_view(g.value@)
                <= usize::MAX,
        ensures
            final(self).wf(),
            final(self).current_epoch_spec() == old(self).current_epoch_spec(),
            final(self).capacity_spec() == old(self).capacity_spec(),
            final(self)@ == old(self)@.insert(
                if g.index as int <= old(self)@.len() {
                    g.index as int
                } else {
                    old(self)@.len() as int
                },
                (g.key@, g.value@, g.epoch),
            ),
            lookup(final(self)@, g.key@) == Some(g.value@),
    {
        let i = if g.index <= self.entries.len() {
            g.index
        } else {
            self.entries.len()
        };
        let MutGuard { key, value, index: _, epoch } = g;
        let key_size = key.estimated_size();
        let val_size = value.estimated_size();
        let ghost s0 = self@;
        let ghost e = (key@, value@, epoch);
        self.entries.insert(i, Entry { key, value, epoch });
        proof {
            assert(self@ =~= s0.insert(i as int, e));
            lemma_total_cost_insert::<K, V>(s0, i as int, e);
            lemma_insert_keeps(s0, i as int, e, self.cur_epoch);
            lemma_lookup_at(self@, e.0, i as int);
        }
        self.kv_heap_size = self.kv_heap_size.saturating_add(key_size + val_size);
        report_memory_usage(
            &self.memory_usage_metrics,
            self.kv_heap_size,
            &mut self.last_reported_size_bytes,
        );
    }

    /// One relaxed load of the shared watermark. The value is whatever the
    /// external controller has published; nothing more can be said of it.
    fn load_watermark(&self) -> u64 {
        self.watermark_epoch.load(Ordering::Relaxed)
    }

    /// The resident values in most-recently-used-first order.
    pub fn values(&self) -> (r: Vec<&V>)
        ensures
            r@.len() == self@.len(),
            forall|i: int| 0 <= i < r@.len() ==> r@[i]@ == self@[self@.len() - 1 - i].1,
    {
        let mut out: Vec<&V> = Vec::new();
        let n = self.entries.len();
        for i in 0..n
            invariant
                n == self.entries.len(),
                out@.len() == i,
                forall|j: int| 0 <= j < i ==> out@[j]@ == self@[n - 1 - j].1,
        {
            out.push(&self.entries[n - 1 - i].value);
        }
        out
    }

    /// On teardown, reset the reported size gauge to zero, so that a stale
    /// nonzero series never outlives a destroyed cache. The sink does not
    /// retract values by itself.
    fn reset_size_gauge(&self)
        opens_invariants none
        no_unwind
    {
        self.memory_usage_metrics.set(0);
    }

    /// Drop every resident entry and zero the running size exactly.
    pub fn clear(&mut self)
        requires
            old(self).wf(),
        ensures
            final(self).wf(),
            final(self)@ == Seq::<(<K as View>::V, <V as View>::V, u64)>::empty(),
            final(self).heap_size_spec() == 0,
            final(self).current_epoch_spec() == old(self).current_epoch_spec(),
            final(self).capacity_spec() == old(self).capacity_spec(),
    {
        self.entries.clear();
        self.kv_heap_size = 0;
        report_memory_usage(
            &self.memory_usage_metrics,
            self.kv_heap_size,
            &mut self.last_reported_size_bytes,
        );
        proof {
            assert(self@ =~= Seq::<(<K as View>::V, <V as View>::V, u64)>::empty());
        }
    }
}

impl<K: CacheKey, V: EstimateSize> Drop for ManagedLruCache<K, V> {
    /// Teardown resets the reported size gauge to exactly zero, even when the
    /// last tracked size was nonzero.
    fn drop(&mut self)
        opens_invariants none
        no_unwind
    {
        self.reset_size_gauge();
    }
}

/// Create an unbounded cache: eviction is purely epoch-driven, `push` behaves
/// like `put`.
pub fn new_unbounded<K: CacheKey, V: EstimateSize>(
    watermark_epoch: Arc<AtomicU64>,
    metrics_info: MetricsInfo,
) -> (r: ManagedLruCache<K, V>)
    ensures
        r.wf(),
        r@ == Seq::<(<K as View>::V, <V as View>::V, u64)>::empty(),
        r.heap_size_spec() == 0,
        r.current_epoch_spec() == 0,
        r.capacity_spec() is None,
        r.last_reported_spec() == 0,
{
    ManagedLruCache::new_inner(watermark_epoch, metrics_info, None)
}

} // verus!
