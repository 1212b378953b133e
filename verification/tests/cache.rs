use std::sync::atomic::AtomicU64;
use std::sync::Arc;

use stream_core::cache::{new_unbounded, ManagedLruCache};
use stream_core::metrics::MetricsInfo;

fn metrics() -> MetricsInfo {
    MetricsInfo::new(
        "cache_memory_usage_bytes",
        "resident byte size of one cache",
        "cache_evicted_watermark_time_ms",
        "physical time of the last eviction watermark",
    )
    .unwrap()
}

fn watermark(v: u64) -> Arc<AtomicU64> {
    Arc::new(AtomicU64::new(v))
}

#[test]
fn epoch_eviction_scenario() {
    let wm = watermark(0);
    let mut cache: ManagedLruCache<u64, Vec<u8>> = new_unbounded(wm.clone(), metrics());
    cache.update_epoch(10);
    assert_eq!(cache.put(1, Vec::new()), None);
    cache.update_epoch(20);
    assert_eq!(cache.put(2, vec![0; 4]), None);
    assert_eq!(cache.len(), 2);
    assert_eq!(cache.heap_size(), 20);

    wm.store(15, std::sync::atomic::Ordering::Relaxed);
    cache.evict();
    assert_eq!(cache.len(), 1);
    assert_eq!(cache.heap_size(), 12);
    assert_eq!(cache.get(&1), None);
    assert_eq!(cache.get(&2), Some(&vec![0u8; 4]));
}

#[test]
fn guard_mutation_scenario() {
    let wm = watermark(0);
    let mut cache: ManagedLruCache<u64, Vec<u8>> = new_unbounded(wm.clone(), metrics());
    cache.update_epoch(10);
    cache.put(1, Vec::new());
    cache.update_epoch(20);
    cache.put(2, vec![0; 4]);
    wm.store(15, std::sync::atomic::Ordering::Relaxed);
    cache.evict();
    assert_eq!(cache.heap_size(), 12);

    // Mutate the value under key 2 so its cost goes from 4 to 22 bytes; with
    // the 8-byte key the entry's cost goes from 12 to 30.
    let mut guard = cache.get_mut(&2).unwrap();
    guard.value = vec![7; 22];
    cache.release(guard);
    assert_eq!(cache.heap_size(), 30);
    assert_eq!(cache.len(), 1);
    assert_eq!(cache.get(&2), Some(&vec![7u8; 22]));

    // And shrink it again: the accounting follows the cost down too.
    let mut guard = cache.get_mut(&2).unwrap();
    guard.value = vec![7; 2];
    cache.release(guard);
    assert_eq!(cache.heap_size(), 10);
}

#[test]
fn push_capacity_safety_valve() {
    let wm = watermark(0);
    let mut cache: ManagedLruCache<u64, Vec<u8>> =
        ManagedLruCache::new_inner(wm, metrics(), Some(1));
    assert_eq!(cache.push(7, vec![0; 5]), None);
    assert_eq!(cache.len(), 1);
    assert_eq!(cache.heap_size(), 13);

    let evicted = cache.push(8, vec![1; 7]);
    assert_eq!(evicted, Some((7, vec![0; 5])));
    assert_eq!(cache.len(), 1);
    assert_eq!(cache.heap_size(), 15);
    assert!(cache.contains(&8));
    assert!(!cache.contains(&7));
}

#[test]
fn push_replaces_under_same_key() {
    let wm = watermark(0);
    let mut cache: ManagedLruCache<u64, Vec<u8>> =
        ManagedLruCache::new_inner(wm, metrics(), Some(1));
    assert_eq!(cache.push(7, vec![0; 5]), None);
    let replaced = cache.push(7, vec![1; 9]);
    assert_eq!(replaced, Some((7, vec![0; 5])));
    assert_eq!(cache.len(), 1);
    assert_eq!(cache.heap_size(), 17);
}

#[test]
fn evict_except_cur_epoch_keeps_in_flight_entries() {
    let wm = watermark(0);
    let mut cache: ManagedLruCache<u64, Vec<u8>> = new_unbounded(wm.clone(), metrics());
    cache.update_epoch(10);
    cache.put(1, Vec::new());
    cache.update_epoch(20);
    cache.put(2, Vec::new());

    // The watermark has passed the local epoch: a plain evict would drop
    // everything, but the in-flight epoch's entries must survive.
    wm.store(25, std::sync::atomic::Ordering::Relaxed);
    cache.evict_except_cur_epoch();
    assert_eq!(cache.len(), 1);
    assert!(!cache.contains(&1));
    assert!(cache.contains(&2));

    cache.evict();
    assert_eq!(cache.len(), 0);
    assert_eq!(cache.heap_size(), 0);
}

#[test]
fn evict_except_cur_epoch_below_watermark() {
    let wm = watermark(0);
    let mut cache: ManagedLruCache<u64, Vec<u8>> = new_unbounded(wm.clone(), metrics());
    cache.update_epoch(10);
    cache.put(1, Vec::new());
    cache.update_epoch(20);
    cache.put(2, Vec::new());
    cache.update_epoch(30);
    cache.put(3, Vec::new());

    // min(watermark, local epoch) = 20: only entries stamped strictly below
    // 20 go; the one stamped exactly 20 stays.
    wm.store(20, std::sync::atomic::Ordering::Relaxed);
    cache.evict_except_cur_epoch();
    assert!(!cache.contains(&1));
    assert!(cache.contains(&2));
    assert!(cache.contains(&3));
}

#[test]
fn evict_boundary_is_inclusive() {
    let wm = watermark(0);
    let mut cache: ManagedLruCache<u64, Vec<u8>> = new_unbounded(wm.clone(), metrics());
    cache.update_epoch(15);
    cache.put(1, Vec::new());
    cache.update_epoch(16);
    cache.put(2, Vec::new());

    // An entry stamped exactly at the watermark is evicted; one stamped just
    // above survives.
    wm.store(15, std::sync::atomic::Ordering::Relaxed);
    cache.evict();
    assert!(!cache.contains(&1));
    assert!(cache.contains(&2));
}

#[test]
fn round_trip_and_replace() {
    let wm = watermark(0);
    let mut cache: ManagedLruCache<u64, Vec<u8>> = new_unbounded(wm, metrics());
    assert_eq!(cache.put(1, vec![1]), None);
    assert_eq!(cache.put(2, vec![2]), None);
    assert_eq!(cache.get(&1), Some(&vec![1u8]));
    let old = cache.put(1, vec![9, 9]);
    assert_eq!(old, Some(vec![1]));
    assert_eq!(cache.get(&1), Some(&vec![9u8, 9]));
    assert_eq!(cache.get(&2), Some(&vec![2u8]));
    assert_eq!(cache.len(), 2);
    assert_eq!(cache.heap_size(), 8 + 2 + 8 + 1);
}

#[test]
fn values_are_most_recent_first() {
    let wm = watermark(0);
    let mut cache: ManagedLruCache<u64, Vec<u8>> = new_unbounded(wm, metrics());
    cache.put(1, vec![1]);
    cache.put(2, vec![2]);
    cache.put(3, vec![3]);
    let hot_first: Vec<Vec<u8>> = cache.values().into_iter().cloned().collect();
    assert_eq!(hot_first, vec![vec![3], vec![2], vec![1]]);

    // A get promotes; a peek does not.
    cache.get(&1);
    let after_get: Vec<Vec<u8>> = cache.values().into_iter().cloned().collect();
    assert_eq!(after_get, vec![vec![1], vec![3], vec![2]]);
    cache.peek(&2);
    let after_peek: Vec<Vec<u8>> = cache.values().into_iter().cloned().collect();
    assert_eq!(after_peek, vec![vec![1], vec![3], vec![2]]);
}

#[test]
fn peek_mut_preserves_order_and_stamp() {
    let wm = watermark(0);
    let mut cache: ManagedLruCache<u64, Vec<u8>> = new_unbounded(wm.clone(), metrics());
    cache.update_epoch(10);
    cache.put(1, vec![1]);
    cache.update_epoch(20);
    cache.put(2, vec![2]);

    let mut guard = cache.peek_mut(&1).unwrap();
    assert_eq!(guard.epoch, 10);
    guard.value = vec![1, 1, 1];
    cache.release(guard);
    let hot_first: Vec<Vec<u8>> = cache.values().into_iter().cloned().collect();
    assert_eq!(hot_first, vec![vec![2], vec![1, 1, 1]]);
    assert_eq!(cache.heap_size(), 8 + 3 + 8 + 1);

    // The original stamp was kept, so the entry still falls to an eviction
    // below its neighbour's stamp.
    wm.store(15, std::sync::atomic::Ordering::Relaxed);
    cache.evict();
    assert!(!cache.contains(&1));
    assert!(cache.contains(&2));
}

#[test]
fn get_mut_promotes_and_restamps() {
    let wm = watermark(0);
    let mut cache: ManagedLruCache<u64, Vec<u8>> = new_unbounded(wm.clone(), metrics());
    cache.update_epoch(10);
    cache.put(1, vec![1]);
    cache.update_epoch(20);
    cache.put(2, vec![2]);

    let guard = cache.get_mut(&1).unwrap();
    assert_eq!(guard.epoch, 20);
    cache.release(guard);
    let hot_first: Vec<Vec<u8>> = cache.values().into_iter().cloned().collect();
    assert_eq!(hot_first, vec![vec![1], vec![2]]);

    // Re-stamped to the current epoch, the entry survives an eviction that
    // would have caught its old stamp.
    wm.store(15, std::sync::atomic::Ordering::Relaxed);
    cache.evict();
    assert!(cache.contains(&1));
    assert!(cache.contains(&2));
}

#[test]
fn clear_empties_everything() {
    let wm = watermark(0);
    let mut cache: ManagedLruCache<u64, Vec<u8>> = new_unbounded(wm, metrics());
    cache.update_epoch(5);
    cache.put(1, vec![0; 100]);
    cache.put(2, vec![0; 200]);
    cache.clear();
    assert_eq!(cache.len(), 0);
    assert!(cache.is_empty());
    assert_eq!(cache.heap_size(), 0);
    assert_eq!(cache.get(&1), None);
    assert_eq!(cache.peek(&2), None);
    assert!(!cache.contains(&1));
    assert!(cache.values().is_empty());
    assert_eq!(cache.current_epoch(), 5);
}

#[test]
fn reporter_throttles_small_changes() {
    let info = metrics();
    let handles = info.duplicate();
    let wm = watermark(0);
    let mut cache: ManagedLruCache<u64, Vec<u8>> = new_unbounded(wm, info);

    // Many small changes below the 4096 KiB threshold never touch the gauge.
    for k in 0..10 {
        cache.put(k, vec![0; 100]);
    }
    assert_eq!(cache.heap_size(), 1080);
    assert_eq!(handles.memory_usage_value(), 0);

    // One change crossing the threshold pushes the exact running size.
    cache.put(100, vec![0; 4_200_000]);
    assert_eq!(cache.heap_size(), 1080 + 4_200_008);
    assert_eq!(handles.memory_usage_value(), 1080 + 4_200_008);
}

#[test]
fn teardown_resets_size_gauge() {
    let info = metrics();
    let handles = info.duplicate();
    let wm = watermark(0);
    let mut cache: ManagedLruCache<u64, Vec<u8>> = new_unbounded(wm, info);
    cache.put(1, vec![0; 5_000_000]);
    assert_eq!(handles.memory_usage_value(), 5_000_008);

    drop(cache);
    assert_eq!(handles.memory_usage_value(), 0);
}

#[test]
fn eviction_reports_watermark_time() {
    let info = metrics();
    let handles = info.duplicate();
    let wm = watermark(0);
    let mut cache: ManagedLruCache<u64, Vec<u8>> = new_unbounded(wm, info);

    // The epoch encodes the physical milliseconds in its upper 48 bits.
    cache.evict_by_epoch(3 << 16);
    assert_eq!(handles.evicted_watermark_time_value(), 3);
}

#[test]
fn metrics_info_rejects_bad_gauge_name() {
    assert!(MetricsInfo::new("", "x", "also bad", "y").is_none());
    assert!(MetricsInfo::new("fine_name", "x", "fine_name_too", "y").is_some());
}

#[test]
fn epoch_encodes_physical_milliseconds() {
    assert_eq!(stream_core::cache::epoch_physical_ms(0), 0);
    assert_eq!(stream_core::cache::epoch_physical_ms(5 * 65536 + 123), 5);
}
