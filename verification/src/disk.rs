//! Usage of the mounted volumes.

use crate::percent::Percent;
use crate::sums::lemma_prefix_sum_le;
use crate::sums::lemma_prefix_sum_monotone;
use crate::sums::prefix_sum;
use crate::sums::sum;
use crate::types::DiskDetail;
use crate::types::DiskInfo;
use vstd::prelude::*;

verus! {

/// One mounted volume, as read from the operating system. Sizes are in bytes.
#[derive(Debug, Clone, PartialEq, Eq)]
pub struct DiskReading {
    /// Name of the device.
    pub name: String,
    /// Where the volume is mounted.
    pub mount_point: String,
    /// Type of the file system.
    pub file_system: String,
    /// Capacity of the volume.
    pub total: u64,
    /// Space that is free for use.
    pub available: u64,
    /// Whether the volume sits on a removable device.
    pub is_removable: bool,
}

/// The space in use on a volume: its capacity less the available space, and
/// zero where more space is said to be available than the volume holds.
pub open spec fn used_space(total: u64, available: u64) -> u64 {
    if available <= total {
        (total - available) as u64
    } else {
        0
    }
}

/// What is reported of one volume.
pub open spec fn detail_of(reading: DiskReading) -> DiskDetail {
    DiskDetail {
        name: reading.name,
        mount_point: reading.mount_point,
        file_system: reading.file_system,
        total: reading.total,
        used: used_space(reading.total, reading.available),
        available: reading.available,
        usage_percent: Percent::ratio(
            used_space(reading.total, reading.available) as nat,
            reading.total as nat,
        ),
        is_removable: reading.is_removable,
    }
}

/// What is reported of all volumes of an enumeration, in its order.
pub open spec fn details_of(readings: Seq<DiskReading>) -> Seq<DiskDetail> {
    Seq::new(readings.len(), |i: int| detail_of(readings[i]))
}

/// The capacities of a list of volumes.
pub open spec fn capacities(disks: Seq<DiskDetail>) -> Seq<nat> {
    Seq::new(disks.len(), |i: int| disks[i].total as nat)
}

/// The space in use on each of a list of volumes.
pub open spec fn used_spaces(disks: Seq<DiskDetail>) -> Seq<nat> {
    Seq::new(disks.len(), |i: int| disks[i].used as nat)
}

/// The available space on each of a list of volumes.
pub open spec fn available_spaces(disks: Seq<DiskDetail>) -> Seq<nat> {
    Seq::new(disks.len(), |i: int| disks[i].available as nat)
}

/// Each of the three sums over a list of volumes fits in 64 bits.
pub open spec fn totals_fit(disks: Seq<DiskDetail>) -> bool {
    &&& sum(capacities(disks)) <= u64::MAX
    &&& sum(used_spaces(disks)) <= u64::MAX
    &&& sum(available_spaces(disks)) <= u64::MAX
}

impl DiskDetail {
    /// The space in use and its share are those of the capacity and the
    /// available space that the entry holds.
    pub open spec fn is_consistent(self) -> bool {
        &&& self.used == used_space(self.total, self.available)
        &&& self.usage_percent == Percent::ratio(self.used as nat, self.total as nat)
    }

    /// In a consistent entry the space in use is the capacity less the
    /// available space, or zero where that would be negative; it is no more
    /// than the capacity; and its share lies between 0 % and 100 % and is 0 %
    /// for a volume without capacity.
    pub proof fn lemma_consistent(self)
        requires
            self.is_consistent(),
        ensures
            self.available <= self.total ==> self.used == self.total - self.available,
            self.available > self.total ==> self.used == 0,
            self.used <= self.total,
            self.usage_percent.in_range(),
            self.total == 0 ==> self.usage_percent.hundredths == 0,
    {
        Percent::lemma_ratio_in_range(self.used as nat, self.total as nat);
    }
}

impl DiskInfo {
    /// The snapshot is that of the enumeration `readings`: its volumes one by
    /// one, and totals that match them.
    pub open spec fn is_snapshot_of(self, readings: Seq<DiskReading>) -> bool {
        &&& self.disks@ == details_of(readings)
        &&& self.totals_match()
    }

    /// Each total is the sum of that figure over every volume listed,
    /// removable or not, and the share in use is that of the totals.
    pub open spec fn totals_match(self) -> bool {
        &&& self.total == sum(capacities(self.disks@))
        &&& self.total_used == sum(used_spaces(self.disks@))
        &&& self.total_available == sum(available_spaces(self.disks@))
        &&& self.total_usage_percent == Percent::ratio(self.total_used as nat, self.total as nat)
    }
}

/// Every entry reported of an enumeration is consistent.
pub proof fn lemma_details_consistent(readings: Seq<DiskReading>, i: int)
    requires
        0 <= i < readings.len(),
    ensures
        details_of(readings)[i].is_consistent(),
        details_of(readings)[i].used <= details_of(readings)[i].total,
        details_of(readings)[i].usage_percent.in_range(),
{
    details_of(readings)[i].lemma_consistent();
}

/// The space in use on all volumes together is no more than their capacity
/// together: the totals of an enumeration fit in 64 bits where the
/// capacities do and the available spaces do.
pub proof fn lemma_used_within_capacity(readings: Seq<DiskReading>)
    ensures
        sum(used_spaces(details_of(readings))) <= sum(capacities(details_of(readings))),
        totals_fit(details_of(readings)) <==> {
            &&& sum(capacities(details_of(readings))) <= u64::MAX
            &&& sum(available_spaces(details_of(readings))) <= u64::MAX
        },
{
    let disks = details_of(readings);
    assert forall|k: int| 0 <= k < disks.len() implies used_spaces(disks)[k] <= capacities(
        disks,
    )[k] by {
        lemma_details_consistent(readings, k);
    }
    lemma_prefix_sum_le(used_spaces(disks), capacities(disks), disks.len());
}

impl DiskInfo {
    /// In a snapshot whose totals match, the share in use lies between 0 % and
    /// 100 %, and is 0 % where the volumes have no capacity.
    pub proof fn lemma_total_usage_in_range(self)
        requires
            self.totals_match(),
        ensures
            self.total_usage_percent.in_range(),
            self.total == 0 ==> self.total_usage_percent.hundredths == 0,
    {
        Percent::lemma_ratio_in_range(self.total_used as nat, self.total as nat);
    }
}

/// Adds up the three figures over a list of volumes. `None` where one of the
/// sums does not fit in 64 bits.
fn total_up(disks: &Vec<DiskDetail>) -> (totals: Option<(u64, u64, u64)>)
    ensures
        match totals {
            Some(t) => {
                &&& totals_fit(disks@)
                &&& t.0 == sum(capacities(disks@))
                &&& t.1 == sum(used_spaces(disks@))
                &&& t.2 == sum(available_spaces(disks@))
            },
            None => !totals_fit(disks@),
        },
{
    let mut total: u64 = 0;
    let mut used: u64 = 0;
    let mut available: u64 = 0;
    let mut i: usize = 0;
    while i < disks.len()
        invariant
            i <= disks.len(),
            total == prefix_sum(capacities(disks@), i as nat),
            used == prefix_sum(used_spaces(disks@), i as nat),
            available == prefix_sum(available_spaces(disks@), i as nat),
        decreases disks.len() - i,
    {
        let disk = &disks[i];
        proof {
            let n = disks@.len();
            lemma_prefix_sum_monotone(capacities(disks@), (i + 1) as nat, n);
            lemma_prefix_sum_monotone(used_spaces(disks@), (i + 1) as nat, n);
            lemma_prefix_sum_monotone(available_spaces(disks@), (i + 1) as nat, n);
        }
        let a = total.checked_add(disk.total);
        let b = used.checked_add(disk.used);
        let c = available.checked_add(disk.available);
        match (a, b, c) {
            (Some(a), Some(b), Some(c)) => {
                total = a;
                used = b;
                available = c;
            },
            _ => {
                return None;
            },
        }
        i += 1;
    }
    Some((total, used, available))
}

/// What is reported of each volume of `readings`.
fn describe(readings: &Vec<DiskReading>) -> (disks: Vec<DiskDetail>)
    ensures
        disks@ == details_of(readings@),
{
    let mut disks: Vec<DiskDetail> = Vec::new();
    let mut i: usize = 0;
    while i < readings.len()
        invariant
            i <= readings.len(),
            disks@.len() == i,
            forall|k: int| 0 <= k < i ==> #[trigger] disks@[k] == detail_of(readings@[k]),
        decreases readings.len() - i,
    {
        let reading = &readings[i];
        let used = reading.total.saturating_sub(reading.available);
        disks.push(
            DiskDetail {
                name: reading.name.clone(),
                mount_point: reading.mount_point.clone(),
                file_system: reading.file_system.clone(),
                total: reading.total,
                used,
                available: reading.available,
                usage_percent: Percent::of(used, reading.total),
                is_removable: reading.is_removable,
            },
        );
        i += 1;
    }
    disks
}

/// Turns enumerations of the mounted volumes into snapshots.
#[derive(Debug, Clone, Copy)]
pub struct DiskCollector {}

impl DiskCollector {
    /// A collector.
    pub fn new() -> Self {
        DiskCollector {  }
    }

    /// Takes a sample: reports every volume of `readings`, which is a fresh
    /// enumeration of all volumes that are mounted now, and their totals.
    pub fn collect(&mut self, readings: &Vec<DiskReading>) -> (info: DiskInfo)
        requires
            totals_fit(details_of(readings@)),
        ensures
            info.is_snapshot_of(readings@),
            info.total_usage_percent.in_range(),
    {
        let disks = describe(readings);
        let totals = total_up(&disks).unwrap();
        DiskInfo {
            disks,
            total: totals.0,
            total_used: totals.1,
            total_available: totals.2,
            total_usage_percent: Percent::of(totals.1, totals.0),
        }
    }

    /// Takes a sample as `collect` does, where every total fits in 64 bits,
    /// and returns `None` where one does not.
    pub fn try_collect(&mut self, readings: &Vec<DiskReading>) -> (info: Option<DiskInfo>)
        ensures
            info is Some <==> totals_fit(details_of(readings@)),
            info matches Some(i) ==> i.is_snapshot_of(readings@)
                && i.total_usage_percent.in_range(),
    {
        let disks = describe(readings);
        match total_up(&disks) {
            Some(totals) => Some(
                DiskInfo {
                    disks,
                    total: totals.0,
                    total_used: totals.1,
                    total_available: totals.2,
                    total_usage_percent: Percent::of(totals.1, totals.0),
                },
            ),
            None => None,
        }
    }
}

impl Default for DiskCollector {
    fn default() -> Self {
        DiskCollector::new()
    }
}

} // verus!
