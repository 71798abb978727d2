//! Memory and swap usage.

use crate::percent::Percent;
use crate::types::MemoryInfo;
use vstd::prelude::*;

verus! {

/// The sizes of memory and swap, in bytes, as read from the operating
/// system.
#[derive(Debug, Clone, Copy, PartialEq, Eq, Structural)]
pub struct MemoryReading {
    /// Size of the physical memory.
    pub total: u64,
    /// Physical memory in use.
    pub used: u64,
    /// Physical memory that can be handed out without swapping.
    pub available: u64,
    /// Size of the swap space.
    pub swap_total: u64,
    /// Swap space in use.
    pub swap_used: u64,
}

impl MemoryInfo {
    /// The snapshot of a reading: its sizes, and the two shares in use worked
    /// out from them.
    pub open spec fn of_reading(reading: MemoryReading) -> MemoryInfo {
        MemoryInfo {
            total: reading.total,
            used: reading.used,
            available: reading.available,
            usage_percent: Percent::ratio(reading.used as nat, reading.total as nat),
            swap_total: reading.swap_total,
            swap_used: reading.swap_used,
            swap_usage_percent: Percent::ratio(
                reading.swap_used as nat,
                reading.swap_total as nat,
            ),
        }
    }

    /// Both shares are those of the sizes that the snapshot holds.
    pub open spec fn is_consistent(self) -> bool {
        &&& self.usage_percent == Percent::ratio(self.used as nat, self.total as nat)
        &&& self.swap_usage_percent == Percent::ratio(
            self.swap_used as nat,
            self.swap_total as nat,
        )
    }

    /// In a consistent snapshot both shares lie between 0 % and 100 %, and a
    /// share of nothing is 0 %.
    pub proof fn lemma_consistent_in_range(self)
        requires
            self.is_consistent(),
        ensures
            self.usage_percent.in_range(),
            self.swap_usage_percent.in_range(),
            self.total == 0 ==> self.usage_percent.hundredths == 0,
            self.swap_total == 0 ==> self.swap_usage_percent.hundredths == 0,
    {
        Percent::lemma_ratio_in_range(self.used as nat, self.total as nat);
        Percent::lemma_ratio_in_range(self.swap_used as nat, self.swap_total as nat);
    }
}

/// Turns readings of memory and swap into snapshots.
#[derive(Debug, Clone, Copy)]
pub struct MemoryCollector {}

impl MemoryCollector {
    /// A collector.
    pub fn new() -> Self {
        MemoryCollector {  }
    }

    /// Takes a sample: the snapshot of `reading`. The shares in use are worked
    /// out anew from the sizes of the reading; nothing of an earlier sample
    /// enters.
    pub fn collect(&mut self, reading: MemoryReading) -> (info: MemoryInfo)
        ensures
            info == MemoryInfo::of_reading(reading),
            info.is_consistent(),
            info.usage_percent.in_range(),
            info.swap_usage_percent.in_range(),
    {
        MemoryInfo {
            total: reading.total,
            used: reading.used,
            available: reading.available,
            usage_percent: Percent::of(reading.used, reading.total),
            swap_total: reading.swap_total,
            swap_used: reading.swap_used,
            swap_usage_percent: Percent::of(reading.swap_used, reading.swap_total),
        }
    }
}

impl Default for MemoryCollector {
    fn default() -> Self {
        MemoryCollector::new()
    }
}

} // verus!
