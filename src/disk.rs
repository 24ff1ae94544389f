//! Free-space figures of the stateful file system.
use vstd::prelude::*;

verus! {

/// Below this percentage of free blocks the hibernate data is released
/// after an attempt.
pub const LOW_DISK_FREE_THRESHOLD_PERCENT: u64 = 10;

/// Block counts of a file system.
#[derive(Clone, Copy, Debug, PartialEq, Eq, Structural)]
pub struct FsStats {
    pub free_blocks: u64,
    pub total_blocks: u64,
}

/// Free space in whole percent, rounded down.
pub open spec fn free_percent(s: FsStats) -> int {
    (s.free_blocks as int * 100) / s.total_blocks as int
}

/// The file system is known and under the free-space threshold.
pub open spec fn low_on_space(s: FsStats) -> bool {
    s.total_blocks > 0 && free_percent(s) < LOW_DISK_FREE_THRESHOLD_PERCENT
}

impl FsStats {
    /// Tells whether the free space is under the threshold. A file system
    /// that reports no blocks is not judged.
    pub fn is_low_on_space(&self) -> (r: bool)
        ensures
            r == low_on_space(*self),
    {
        if self.total_blocks == 0 {
            return false;
        }
        let free = self.free_blocks as u128 * 100;
        let pct = free / (self.total_blocks as u128);
        pct < LOW_DISK_FREE_THRESHOLD_PERCENT as u128
    }
}

} // verus!
