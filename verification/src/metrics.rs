//! Handles into the external metrics sink.
//!
//! The cache reports two gauges per instance: its current resident byte size
//! and the physical time of the last eviction watermark. The gauges live in
//! prometheus; its gauge type carries a trait-bounded generic parameter that
//! the verifier cannot declare, so this module holds the handle in an opaque
//! struct of its own and wraps each call the library makes on it. Nothing is
//! proved about the sink's state: the cache's own mirror of the last reported
//! size carries the verified throttling invariant.

use vstd::prelude::*;

verus! {

/// An opaque handle to one integer gauge of the external metrics sink.
/// Relies on prometheus's `IntGauge`: a cheaply cloneable handle where every
/// clone addresses the same underlying cell.
#[verifier::external_body]
pub struct MetricGauge {
    inner: prometheus::IntGauge,
}

impl MetricGauge {
    /// Relies on prometheus's `IntGauge::new`: creates a fresh gauge holding 0,
    /// or fails if `name` is not a valid metric identifier.
    #[verifier::external_body]
    pub fn new(name: &str, help: &str) -> (r: Option<MetricGauge>) {
        match prometheus::IntGauge::new(name, help) {
            Ok(inner) => Some(MetricGauge { inner }),
            Err(_) => None,
        }
    }

    /// Relies on prometheus's `GenericGauge::set`: stores `v` as the gauge's
    /// current value; an atomic store that cannot unwind.
    #[verifier::external_body]
    pub fn set(&self, v: i64)
        opens_invariants none
        no_unwind
    {
        self.inner.set(v);
    }

    /// Relies on prometheus's `GenericGauge::get`: returns the value the gauge
    /// currently holds, shared state that any clone of the handle may change.
    #[verifier::external_body]
    pub fn get(&self) -> (r: i64) {
        self.inner.get()
    }

    /// Relies on prometheus's `Clone for GenericGauge`: returns a new handle to
    /// the same underlying gauge cell.
    #[verifier::external_body]
    pub fn clone_handle(&self) -> (r: MetricGauge) {
        MetricGauge { inner: self.inner.clone() }
    }

    /// Relies on prometheus's `GenericGauge::inc`: adds one to the gauge's
    /// value; an atomic add that cannot unwind.
    #[verifier::external_body]
    fn inc(&self)
        opens_invariants none
        no_unwind
    {
        self.inner.inc();
    }

    /// Relies on prometheus's `GenericGauge::dec`: subtracts one from the
    /// gauge's value; an atomic subtract that cannot unwind.
    #[verifier::external_body]
    fn dec(&self)
        opens_invariants none
        no_unwind
    {
        self.inner.dec();
    }

    /// Increment the gauge, and return a guard that will decrement the gauge
    /// when dropped. The guard carries its own handle to the gauge's cell.
    pub fn inc_guard(&self) -> GaugeIncGuard {
        self.inc();
        GaugeIncGuard { gauge: self.clone_handle() }
    }
}

/// A scoped increment of a gauge: created by [`MetricGauge::inc_guard`], it
/// undoes the increment when dropped, so the gauge counts live guards.
pub struct GaugeIncGuard {
    gauge: MetricGauge,
}

impl Drop for GaugeIncGuard {
    fn drop(&mut self)
        opens_invariants none
        no_unwind
    {
        self.gauge.dec();
    }
}

/// The per-instance metric handles a cache reports through: one gauge for the
/// resident byte size, one for the physical time of the last eviction
/// watermark.
pub struct MetricsInfo {
    pub memory_usage: MetricGauge,
    pub evicted_watermark_time_ms: MetricGauge,
}

impl MetricsInfo {
    /// Create both gauges of one cache instance in the external sink, or
    /// return `None` if the sink rejects either name.
    pub fn new(
        memory_usage_name: &str,
        memory_usage_help: &str,
        watermark_time_name: &str,
        watermark_time_help: &str,
    ) -> (r: Option<MetricsInfo>) {
        let memory_usage = MetricGauge::new(memory_usage_name, memory_usage_help);
        let evicted_watermark_time_ms = MetricGauge::new(
            watermark_time_name,
            watermark_time_help,
        );
        match (memory_usage, evicted_watermark_time_ms) {
            (Some(m), Some(w)) => Some(
                MetricsInfo { memory_usage: m, evicted_watermark_time_ms: w },
            ),
            _ => None,
        }
    }

    /// Build the pair from two existing gauge handles.
    pub fn from_gauges(memory_usage: MetricGauge, evicted_watermark_time_ms: MetricGauge) -> (r:
        MetricsInfo)
        ensures
            r.memory_usage == memory_usage,
            r.evicted_watermark_time_ms == evicted_watermark_time_ms,
    {
        MetricsInfo { memory_usage, evicted_watermark_time_ms }
    }

    /// A second pair of handles to the same two gauges.
    pub fn duplicate(&self) -> MetricsInfo {
        MetricsInfo {
            memory_usage: self.memory_usage.clone_handle(),
            evicted_watermark_time_ms: self.evicted_watermark_time_ms.clone_handle(),
        }
    }

    /// Read back what the sink currently holds as the memory usage.
    pub fn memory_usage_value(&self) -> i64 {
        self.memory_usage.get()
    }

    /// Read back what the sink currently holds as the last eviction watermark
    /// time.
    pub fn evicted_watermark_time_value(&self) -> i64 {
        self.evicted_watermark_time_ms.get()
    }
}

} // verus!
