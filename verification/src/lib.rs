//! Building blocks of a streaming dataflow engine that are worth proving:
//! an epoch-bounded, memory-accounted LRU cache for per-operator state, the
//! SQL type-cast admissibility rules used when binding expressions, and the
//! preallocating id generator backed by a durable counter.

pub mod cache;
pub mod cast;
pub mod estimate;
pub mod idgen;
pub mod laws;
pub mod metrics;
pub mod model;
