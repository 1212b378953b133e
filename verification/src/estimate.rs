//! Cost functions for cache accounting.
//!
//! Every key and value type held by the cache reports an estimated byte size.
//! The estimate must be a function of the value's abstract view alone, so that
//! the cache's running total is well defined; the trait contract enforces this
//! by tying the executable result to a `spec` cost of the view.

use vstd::prelude::*;

verus! {

/// A type whose values report an estimated byte cost, consistently:
/// two values with the same view report the same cost.
pub trait EstimateSize: View + Sized {
    /// The cost of a value, as a function of its view.
    spec fn size_of_view(v: Self::V) -> nat;

    /// Report the estimated byte cost of `self`.
    fn estimated_size(&self) -> (r: usize)
        ensures
            r as nat == Self::size_of_view(self@),
    ;
}

/// A cache key: costed like any cached datum, and comparable in a way that
/// agrees with view equality.
pub trait CacheKey: EstimateSize {
    /// Decide whether two keys are the same key.
    fn key_eq(&self, other: &Self) -> (r: bool)
        ensures
            r == (self@ == other@),
    ;
}

impl EstimateSize for u64 {
    open spec fn size_of_view(v: u64) -> nat {
        8
    }

    fn estimated_size(&self) -> (r: usize)
        ensures
            r as nat == Self::size_of_view(self@),
    {
        8
    }
}

impl CacheKey for u64 {
    fn key_eq(&self, other: &Self) -> (r: bool)
        ensures
            r == (self@ == other@),
    {
        *self == *other
    }
}

impl EstimateSize for Vec<u8> {
    open spec fn size_of_view(v: Seq<u8>) -> nat {
        v.len()
    }

    fn estimated_size(&self) -> (r: usize)
        ensures
            r as nat == Self::size_of_view(self@),
    {
        self.len()
    }
}

} // verus!
