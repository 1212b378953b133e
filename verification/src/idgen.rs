//! Identifier allocation backed by a durable counter.
//!
//! A stored id generator hands out ranges of `u64` identifiers. To avoid
//! writing the durable counter on every allocation it preallocates in fixed
//! blocks: the durable value is a bound covering every id handed out so far,
//! and only when a request passes the bound is a new bound computed — the
//! least extension of the old one by whole blocks that covers the request —
//! and persisted. The decision logic lives here, verified; the durable store
//! and the async plumbing around it stay outside: whenever an operation hands
//! back a bound, the caller persists it before serving the ids.

use vstd::prelude::*;

use vstd::arithmetic::div_mod::lemma_fundamental_div_mod;
use vstd::arithmetic::div_mod::lemma_mod_multiples_basic;

verus! {

/// How many ids one durable write preallocates.
pub const ID_PREALLOCATE_INTERVAL: u64 = 1000;

/// The in-memory state of one id generator: the next id to hand out and the
/// preallocated bound below which ids may be served without a durable write.
pub struct IdAllocator {
    current_id: u64,
    next_allocate_id: u64,
}

/// Where a resumed generator starts: the durable value when the store holds
/// one, else the configured origin, else zero.
pub open spec fn resume_origin(stored: Option<u64>, start: Option<u64>) -> u64 {
    match stored {
        Some(v) => v,
        None => match start {
            Some(s) => s,
            None => 0,
        },
    }
}

impl IdAllocator {
    /// The next id to hand out.
    pub closed spec fn current_spec(&self) -> u64 {
        self.current_id
    }

    /// The preallocated bound: ids strictly below it may be served without a
    /// durable write.
    pub closed spec fn bound_spec(&self) -> u64 {
        self.next_allocate_id
    }

    /// Every id handed out so far lies below the bound.
    pub open spec fn wf(&self) -> bool {
        self.current_spec() <= self.bound_spec()
    }

    /// Resume from what the durable store holds (`None` when it holds
    /// nothing; `start` is the configured origin). Returns the allocator and
    /// the fresh bound, one block past the origin, which the caller persists
    /// before serving any id.
    pub fn new(stored: Option<u64>, start: Option<u64>) -> (r: (IdAllocator, u64))
        requires
            resume_origin(stored, start) + ID_PREALLOCATE_INTERVAL <= u64::MAX,
        ensures
            r.0.wf(),
            r.0.current_spec() == resume_origin(stored, start),
            r.0.bound_spec() == resume_origin(stored, start) + ID_PREALLOCATE_INTERVAL,
            r.1 == r.0.bound_spec(),
    {
        let current_id = match stored {
            Some(v) => v,
            None => match start {
                Some(s) => s,
                None => 0,
            },
        };
        let next_allocate_id = current_id + ID_PREALLOCATE_INTERVAL;
        (IdAllocator { current_id, next_allocate_id }, next_allocate_id)
    }

    /// Allocate `interval` consecutive ids: the first is returned, and the
    /// valid range is `[id, id + interval)`. When the allocation passes the
    /// preallocated bound, the second component holds the new bound — the
    /// least extension of the old one by whole preallocation blocks that
    /// covers the request — and the caller persists it before serving the
    /// ids; otherwise the durable counter needs no write.
    pub fn generate_interval(&mut self, interval: u64) -> (r: (u64, Option<u64>))
        requires
            old(self).wf(),
            old(self).current_spec() + interval + ID_PREALLOCATE_INTERVAL <= u64::MAX,
        ensures
            final(self).wf(),
            r.0 == old(self).current_spec(),
            final(self).current_spec() == old(self).current_spec() + interval,
            match r.1 {
                None => final(self).bound_spec() == old(self).bound_spec() && old(
                    self,
                ).current_spec() + interval <= old(self).bound_spec(),
                Some(b) => {
                    &&& b == final(self).bound_spec()
                    &&& old(self).current_spec() + interval > old(self).bound_spec()
                    &&& b >= old(self).current_spec() + interval
                    &&& (b - old(self).bound_spec()) % (ID_PREALLOCATE_INTERVAL as int) == 0
                    &&& b < old(self).current_spec() + interval + ID_PREALLOCATE_INTERVAL
                },
            },
    {
        let id = self.current_id;
        let request_id = id + interval;
        self.current_id = request_id;
        if request_id > self.next_allocate_id {
            let d = request_id - self.next_allocate_id;
            let q = d / ID_PREALLOCATE_INTERVAL;
            let rem = d % ID_PREALLOCATE_INTERVAL;
            proof {
                lemma_fundamental_div_mod(d as int, ID_PREALLOCATE_INTERVAL as int);
                lemma_mod_multiples_basic(q as int, ID_PREALLOCATE_INTERVAL as int);
                lemma_mod_multiples_basic(q as int + 1, ID_PREALLOCATE_INTERVAL as int);
            }
            let add = (d - rem) + (if rem == 0 {
                0
            } else {
                ID_PREALLOCATE_INTERVAL
            });
            let b = self.next_allocate_id + add;
            self.next_allocate_id = b;
            (id, Some(b))
        } else {
            (id, None)
        }
    }

    /// Allocate a single id: the valid range is `[id, id + 1)`. As with
    /// `generate_interval`, a returned bound is persisted before the id is
    /// served.
    pub fn generate(&mut self) -> (r: (u64, Option<u64>))
        requires
            old(self).wf(),
            old(self).current_spec() + 1 + ID_PREALLOCATE_INTERVAL <= u64::MAX,
        ensures
            final(self).wf(),
            r.0 == old(self).current_spec(),
            final(self).current_spec() == old(self).current_spec() + 1,
            match r.1 {
                None => final(self).bound_spec() == old(self).bound_spec() && old(
                    self,
                ).current_spec() + 1 <= old(self).bound_spec(),
                Some(b) => b == final(self).bound_spec() && b >= old(self).current_spec() + 1,
            },
    {
        self.generate_interval(1)
    }
}

} // verus!
