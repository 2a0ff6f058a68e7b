//! Allocation accounting: the two counters that a tracking allocator keeps,
//! and what each event of the allocator does to them.
//!
//! The tracker is the state of the accounting and nothing else. The hook
//! that sits round the system allocator owns one tracker for the life of the
//! process and reports each request to it.

use vstd::prelude::*;
use vstd::wrapping::usize_specs;

verus! {

/// The live byte count and the count of allocations, since the start or the
/// last reset.
pub struct TrackingAllocator {
    allocated_bytes: usize,
    allocation_count: usize,
}

impl TrackingAllocator {
    /// The bytes allocated and not yet given back.
    pub closed spec fn live_bytes(&self) -> usize {
        self.allocated_bytes
    }

    /// The number of allocations that succeeded.
    pub closed spec fn allocations(&self) -> usize {
        self.allocation_count
    }

    /// A tracker that has seen nothing.
    pub fn new() -> (tracker: TrackingAllocator)
        ensures
            tracker.live_bytes() == 0,
            tracker.allocations() == 0,
    {
        TrackingAllocator { allocated_bytes: 0, allocation_count: 0 }
    }

    /// Sets both counters to zero.
    pub fn reset(&mut self)
        ensures
            final(self).live_bytes() == 0,
            final(self).allocations() == 0,
    {
        self.allocated_bytes = 0;
        self.allocation_count = 0;
    }

    /// The bytes allocated and not yet given back.
    pub fn get_current_usage(&self) -> (bytes: usize)
        ensures
            bytes == self.live_bytes(),
    {
        self.allocated_bytes
    }

    /// The number of allocations that succeeded.
    pub fn get_allocation_count(&self) -> (count: usize)
        ensures
            count == self.allocations(),
    {
        self.allocation_count
    }

    /// Takes note of a request for `size` bytes. One that succeeded adds
    /// `size` to the live bytes and one to the allocations, both wrapping;
    /// one that failed changes nothing.
    pub fn record_alloc(&mut self, size: usize, succeeded: bool)
        ensures
            succeeded ==> final(self).live_bytes() == usize_specs::wrapping_add(
                old(self).live_bytes(),
                size,
            ),
            succeeded ==> final(self).allocations() == usize_specs::wrapping_add(
                old(self).allocations(),
                1,
            ),
            !succeeded ==> *final(self) == *old(self),
    {
        if succeeded {
            self.allocated_bytes = self.allocated_bytes.wrapping_add(size);
            self.allocation_count = self.allocation_count.wrapping_add(1);
        }
    }

    /// Takes note that `size` bytes were given back: the live bytes go down
    /// by `size`, wrapping and not held at zero, and the allocations stay.
    pub fn record_dealloc(&mut self, size: usize)
        ensures
            final(self).live_bytes() == usize_specs::wrapping_sub(old(self).live_bytes(), size),
            final(self).allocations() == old(self).allocations(),
    {
        self.allocated_bytes = self.allocated_bytes.wrapping_sub(size);
    }
}

} // verus!
