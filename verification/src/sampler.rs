//! One sample of everything, without a worker.
//!
//! Where no worker is wanted, the host is read once and all four snapshots
//! are taken from that reading, by collectors that are made for the occasion
//! and dropped after it. Such a sample knows no earlier one: it reports no
//! network rates.

use crate::cpu::CpuCollector;
use crate::cpu::CpuReading;
use crate::disk::details_of;
use crate::disk::DiskCollector;
use crate::disk::DiskReading;
use crate::interval::Interval;
use crate::memory::MemoryCollector;
use crate::memory::MemoryReading;
use crate::network::interfaces_of;
use crate::network::lemma_first_sample_has_no_rates;
use crate::network::Baseline;
use crate::network::InterfaceReading;
use crate::network::NetworkCollector;
use crate::types::CpuInfo;
use crate::types::DiskInfo;
use crate::types::MemoryInfo;
use crate::types::NetworkInfo;
use crate::types::SystemInfo;
use crate::types::timestamp_of;
use vstd::prelude::*;

verus! {

/// All that is read of the host for one sample of every kind.
#[derive(Debug, Clone, PartialEq, Eq)]
pub struct HostReading {
    /// The cores and the temperature sensors.
    pub cpu: CpuReading,
    /// The sizes of memory and swap.
    pub memory: MemoryReading,
    /// The mounted volumes.
    pub disks: Vec<DiskReading>,
    /// The counters of the network interfaces.
    pub interfaces: Vec<InterfaceReading>,
}

/// The latest snapshot of each kind.
#[derive(Debug, Clone, PartialEq, Eq)]
pub struct Snapshots {
    /// The processor.
    pub cpu: CpuInfo,
    /// Memory and swap.
    pub memory: MemoryInfo,
    /// The mounted volumes.
    pub disk: DiskInfo,
    /// The network interfaces.
    pub network: NetworkInfo,
}

impl Snapshots {
    /// The snapshots are those of one reading of the host by collectors that
    /// have seen nothing before.
    pub open spec fn is_first_sample_of(self, reading: HostReading) -> bool {
        &&& self.cpu.is_snapshot_of(reading.cpu)
        &&& self.memory == MemoryInfo::of_reading(reading.memory)
        &&& self.disk.is_snapshot_of(reading.disks@)
        &&& self.network.is_snapshot_of(
            Map::<Seq<char>, Baseline>::empty(),
            reading.interfaces@,
            Interval { nanos: 0 },
        )
    }
}

/// The totals over the volumes and over the interfaces of a reading fit in 64
/// bits.
pub open spec fn sample_fits(reading: HostReading) -> bool {
    &&& crate::disk::totals_fit(details_of(reading.disks@))
    &&& crate::network::totals_fit(
        interfaces_of(
            Map::<Seq<char>, Baseline>::empty(),
            reading.interfaces@,
            Interval { nanos: 0 },
        ),
    )
}

/// Takes one sample of every kind from `reading`, with collectors of its own.
/// `None` where the totals over the volumes or over the interfaces do not fit
/// in 64 bits.
///
/// No rate is reported of any interface, whatever was sampled before: the
/// collector that takes the sample has no baseline.
pub fn refresh_all(reading: &HostReading) -> (snapshots: Option<Snapshots>)
    ensures
        snapshots is Some <==> sample_fits(*reading),
        snapshots matches Some(s) ==> {
            &&& s.is_first_sample_of(*reading)
            &&& s.network.interfaces@.len() == reading.interfaces@.len()
            &&& forall|i: int|
                0 <= i < s.network.interfaces@.len() ==> {
                    &&& (#[trigger] s.network.interfaces@[i]).upload_speed == 0
                    &&& s.network.interfaces@[i].download_speed == 0
                }
        },
{
    let cpu = CpuCollector::new().collect(&reading.cpu);
    let memory = MemoryCollector::new().collect(reading.memory);
    let disk = match DiskCollector::new().try_collect(&reading.disks) {
        Some(disk) => disk,
        None => {
            return None;
        },
    };
    let mut collector = NetworkCollector::new();
    let network = match collector.try_collect(&reading.interfaces, Interval::zero()) {
        Some(network) => network,
        None => {
            return None;
        },
    };
    proof {
        assert forall|i: int| 0 <= i < network.interfaces@.len() implies {
            &&& (#[trigger] network.interfaces@[i]).upload_speed == 0
            &&& network.interfaces@[i].download_speed == 0
        } by {
            lemma_first_sample_has_no_rates(reading.interfaces@, Interval { nanos: 0 }, i);
        }
    }
    Some(Snapshots { cpu, memory, disk, network })
}

/// Takes one sample of every kind from `reading` and stamps it with the time
/// at which the host was read: `since_epoch` is the time since the Unix
/// epoch, or `None` where the clock could not be read. `None` where the
/// totals do not fit in 64 bits.
pub fn get_system_info_once(reading: &HostReading, since_epoch: Option<Interval>) -> (info:
    Option<SystemInfo>)
    ensures
        info is Some <==> sample_fits(*reading),
        info matches Some(i) ==> {
            &&& (Snapshots {
                cpu: i.cpu,
                memory: i.memory,
                disk: i.disk,
                network: i.network,
            }).is_first_sample_of(*reading)
            &&& i.timestamp == timestamp_of(since_epoch)
        },
{
    match refresh_all(reading) {
        Some(snapshots) => Some(
            SystemInfo::stamped(
                snapshots.cpu,
                snapshots.memory,
                snapshots.disk,
                snapshots.network,
                since_epoch,
            ),
        ),
        None => None,
    }
}

impl Default for Snapshots {
    /// The snapshots before the first sample: empty lists, zero sizes and no
    /// temperature.
    fn default() -> (r: Self)
        ensures
            r.cpu.is_empty(),
            r.memory == MemoryInfo::empty(),
            r.disk.is_empty(),
            r.network.is_empty(),
    {
        Snapshots {
            cpu: CpuInfo::default(),
            memory: MemoryInfo::default(),
            disk: DiskInfo::default(),
            network: NetworkInfo::default(),
        }
    }
}

} // verus!
