//! Snapshots of the allocation counters, and the difference of two of them.

use vstd::prelude::*;

use crate::allocator::TrackingAllocator;

verus! {

/// The allocation counters as they stood at one moment.
#[derive(Debug, Clone, Copy, PartialEq, Eq, Structural)]
pub struct MemoryStats {
    pub current_bytes: usize,
    pub allocations: usize,
}

/// `later - earlier`, held at zero where `earlier` is the larger.
pub open spec fn saturating_difference(later: usize, earlier: usize) -> usize {
    if later >= earlier {
        (later - earlier) as usize
    } else {
        0
    }
}

impl MemoryStats {
    /// The counters of `allocator` as they stand.
    pub fn now(allocator: &TrackingAllocator) -> (stats: MemoryStats)
        ensures
            stats.current_bytes == allocator.live_bytes(),
            stats.allocations == allocator.allocations(),
    {
        MemoryStats {
            current_bytes: allocator.get_current_usage(),
            allocations: allocator.get_allocation_count(),
        }
    }

    /// What was added since `start` was taken: each counter less its value
    /// in `start`, and zero where it has fallen below that.
    pub fn delta(&self, start: &MemoryStats) -> (change: MemoryStats)
        ensures
            change.current_bytes == saturating_difference(self.current_bytes, start.current_bytes),
            change.allocations == saturating_difference(self.allocations, start.allocations),
    {
        MemoryStats {
            current_bytes: self.current_bytes.saturating_sub(start.current_bytes),
            allocations: self.allocations.saturating_sub(start.allocations),
        }
    }
}

/// Two snapshots of a tracker that nothing was reported to in between are
/// the same.
pub proof fn lemma_snapshot_repeats(
    tracker: TrackingAllocator,
    first: MemoryStats,
    second: MemoryStats,
)
    requires
        call_ensures(MemoryStats::now, (&tracker,), first),
        call_ensures(MemoryStats::now, (&tracker,), second),
    ensures
        first == second,
{
}

/// A snapshot taken right after a reset shows zero live bytes and zero
/// allocations, whatever the tracker held before.
pub proof fn lemma_snapshot_after_reset(
    tracker: &mut TrackingAllocator,
    snapshot: MemoryStats,
)
    requires
        call_ensures(TrackingAllocator::reset, (tracker,), ()),
        call_ensures(MemoryStats::now, (&*final(tracker),), snapshot),
    ensures
        snapshot == (MemoryStats { current_bytes: 0, allocations: 0 }),
{
}

} // verus!
