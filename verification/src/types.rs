//! The snapshots that the collectors produce, and the sampling configuration.

use crate::interval::Interval;
use crate::interval::NANOS_PER_MILLI;
use crate::percent::Percent;
use vstd::prelude::*;

verus! {

/// One logical core at the time of a sample.
#[derive(Debug, Clone, PartialEq, Eq)]
pub struct CpuCoreInfo {
    /// Name of the core.
    pub name: String,
    /// Share of the time since the previous sample that the core was busy.
    pub usage: Percent,
    /// Clock frequency in MHz.
    pub frequency: u64,
}

/// The processor at the time of a sample.
#[derive(Debug, Clone, PartialEq, Eq)]
pub struct CpuInfo {
    /// Brand of the processor; empty where no core was reported.
    pub brand: String,
    /// Mean of the usage of all cores; 0 % where no core was reported.
    pub total_usage: Percent,
    /// The cores, in the order in which they were reported.
    pub cores: Vec<CpuCoreInfo>,
    /// Temperature in thousandths of a degree Celsius, where a usable sensor
    /// exists.
    pub temperature: Option<i32>,
    /// Number of physical cores, where the platform reports it.
    pub physical_core_count: Option<usize>,
}

impl CpuInfo {
    /// The snapshot before the first sample: no brand, no core, no usage, no
    /// temperature and no count of physical cores.
    pub open spec fn is_empty(self) -> bool {
        &&& self.brand@ == Seq::<char>::empty()
        &&& self.total_usage.hundredths == 0
        &&& self.cores@ == Seq::<CpuCoreInfo>::empty()
        &&& self.temperature is None
        &&& self.physical_core_count is None
    }
}

impl Default for CpuInfo {
    fn default() -> (r: Self)
        ensures
            r.is_empty(),
    {
        CpuInfo {
            brand: String::new(),
            total_usage: Percent::zero(),
            cores: Vec::new(),
            temperature: None,
            physical_core_count: None,
        }
    }
}

/// Physical memory and swap at the time of a sample. All sizes are in bytes.
#[derive(Debug, Clone, Copy, PartialEq, Eq, Structural)]
pub struct MemoryInfo {
    /// Size of the physical memory.
    pub total: u64,
    /// Physical memory in use.
    pub used: u64,
    /// Physical memory that can be handed out without swapping.
    pub available: u64,
    /// Share of the physical memory that is in use.
    pub usage_percent: Percent,
    /// Size of the swap space.
    pub swap_total: u64,
    /// Swap space in use.
    pub swap_used: u64,
    /// Share of the swap space that is in use.
    pub swap_usage_percent: Percent,
}

impl MemoryInfo {
    /// The snapshot before the first sample: every size zero, and both shares
    /// 0 %.
    pub open spec fn empty() -> MemoryInfo {
        MemoryInfo {
            total: 0,
            used: 0,
            available: 0,
            usage_percent: Percent { hundredths: 0 },
            swap_total: 0,
            swap_used: 0,
            swap_usage_percent: Percent { hundredths: 0 },
        }
    }
}

impl Default for MemoryInfo {
    fn default() -> (r: Self)
        ensures
            r == MemoryInfo::empty(),
    {
        MemoryInfo {
            total: 0,
            used: 0,
            available: 0,
            usage_percent: Percent::zero(),
            swap_total: 0,
            swap_used: 0,
            swap_usage_percent: Percent::zero(),
        }
    }
}

/// One mounted volume at the time of a sample. All sizes are in bytes.
#[derive(Debug, Clone, PartialEq, Eq)]
pub struct DiskDetail {
    /// Name of the device.
    pub name: String,
    /// Where the volume is mounted.
    pub mount_point: String,
    /// Type of the file system.
    pub file_system: String,
    /// Capacity of the volume.
    pub total: u64,
    /// Space in use: the capacity less the available space, and zero where
    /// more is reported available than the volume holds.
    pub used: u64,
    /// Space that is free for use.
    pub available: u64,
    /// Share of the capacity that is in use.
    pub usage_percent: Percent,
    /// Whether the volume sits on a removable device.
    pub is_removable: bool,
}

/// All mounted volumes at the time of a sample, with their totals.
#[derive(Debug, Clone, PartialEq, Eq)]
pub struct DiskInfo {
    /// The volumes, in the order in which they were reported.
    pub disks: Vec<DiskDetail>,
    /// Sum of the capacities of all volumes.
    pub total: u64,
    /// Sum of the space in use on all volumes.
    pub total_used: u64,
    /// Sum of the available space on all volumes.
    pub total_available: u64,
    /// Share of the summed capacity that is in use.
    pub total_usage_percent: Percent,
}

impl DiskInfo {
    /// The snapshot before the first sample: no volume, every total zero, and
    /// a share of 0 %.
    pub open spec fn is_empty(self) -> bool {
        &&& self.disks@ == Seq::<DiskDetail>::empty()
        &&& self.total == 0
        &&& self.total_used == 0
        &&& self.total_available == 0
        &&& self.total_usage_percent.hundredths == 0
    }
}

impl Default for DiskInfo {
    fn default() -> (r: Self)
        ensures
            r.is_empty(),
    {
        DiskInfo {
            disks: Vec::new(),
            total: 0,
            total_used: 0,
            total_available: 0,
            total_usage_percent: Percent::zero(),
        }
    }
}

/// One network interface at the time of a sample.
#[derive(Debug, Clone, PartialEq, Eq)]
pub struct NetworkInterfaceInfo {
    /// Name of the interface.
    pub name: String,
    /// Bytes sent per second since the previous sample.
    pub upload_speed: u64,
    /// Bytes received per second since the previous sample.
    pub download_speed: u64,
    /// Bytes sent since the interface came up.
    pub total_uploaded: u64,
    /// Bytes received since the interface came up.
    pub total_downloaded: u64,
}

/// All network interfaces at the time of a sample, with their totals.
#[derive(Debug, Clone, PartialEq, Eq)]
pub struct NetworkInfo {
    /// The interfaces, in the order in which they were reported.
    pub interfaces: Vec<NetworkInterfaceInfo>,
    /// Sum of the upload speeds of all interfaces.
    pub total_upload_speed: u64,
    /// Sum of the download speeds of all interfaces.
    pub total_download_speed: u64,
    /// Sum of the bytes sent on all interfaces.
    pub total_uploaded: u64,
    /// Sum of the bytes received on all interfaces.
    pub total_downloaded: u64,
}

impl NetworkInfo {
    /// The snapshot before the first sample: no interface, and every total
    /// zero.
    pub open spec fn is_empty(self) -> bool {
        &&& self.interfaces@ == Seq::<NetworkInterfaceInfo>::empty()
        &&& self.total_upload_speed == 0
        &&& self.total_download_speed == 0
        &&& self.total_uploaded == 0
        &&& self.total_downloaded == 0
    }
}

impl Default for NetworkInfo {
    fn default() -> (r: Self)
        ensures
            r.is_empty(),
    {
        NetworkInfo {
            interfaces: Vec::new(),
            total_upload_speed: 0,
            total_download_speed: 0,
            total_uploaded: 0,
            total_downloaded: 0,
        }
    }
}

/// The four snapshots together, with the time at which they were read.
#[derive(Debug, Clone, PartialEq, Eq)]
pub struct SystemInfo {
    /// The processor.
    pub cpu: CpuInfo,
    /// Memory and swap.
    pub memory: MemoryInfo,
    /// The mounted volumes.
    pub disk: DiskInfo,
    /// The network interfaces.
    pub network: NetworkInfo,
    /// Milliseconds since the Unix epoch at which the snapshots were read;
    /// zero where the clock could not be read.
    pub timestamp: u64,
}

/// The time stamp of a reading of the wall clock: the whole milliseconds since
/// the Unix epoch, as far as they fit in 64 bits, and zero where the clock
/// could not be read.
pub open spec fn timestamp_of(since_epoch: Option<Interval>) -> u64 {
    match since_epoch {
        Some(elapsed) => ((elapsed.nanos / NANOS_PER_MILLI) % 0x1_0000_0000_0000_0000) as u64,
        None => 0,
    }
}

impl SystemInfo {
    /// Puts four snapshots together and stamps them with the time at which
    /// they were read. `since_epoch` is the time since the Unix epoch, or
    /// `None` where the clock could not be read.
    pub fn stamped(
        cpu: CpuInfo,
        memory: MemoryInfo,
        disk: DiskInfo,
        network: NetworkInfo,
        since_epoch: Option<Interval>,
    ) -> (r: Self)
        ensures
            r.cpu == cpu,
            r.memory == memory,
            r.disk == disk,
            r.network == network,
            r.timestamp == timestamp_of(since_epoch),
    {
        let timestamp: u64 = match since_epoch {
            Some(elapsed) => {
                let millis: u128 = elapsed.as_millis() % 0x1_0000_0000_0000_0000u128;
                millis as u64
            },
            None => 0,
        };
        SystemInfo { cpu, memory, disk, network, timestamp }
    }
}

impl Default for SystemInfo {
    fn default() -> (r: Self)
        ensures
            r.cpu.is_empty(),
            r.memory == MemoryInfo::empty(),
            r.disk.is_empty(),
            r.network.is_empty(),
            r.timestamp == 0,
    {
        SystemInfo {
            cpu: CpuInfo::default(),
            memory: MemoryInfo::default(),
            disk: DiskInfo::default(),
            network: NetworkInfo::default(),
            timestamp: 0,
        }
    }
}

/// How often each kind of sample is taken.
#[derive(Debug, Clone, Copy, PartialEq, Eq, Structural)]
pub struct MonitorConfig {
    /// Time between two samples of the processor.
    pub cpu_interval: Interval,
    /// Time between two samples of the memory.
    pub memory_interval: Interval,
    /// Time between two samples of the volumes.
    pub disk_interval: Interval,
    /// Time between two samples of the network interfaces.
    pub network_interval: Interval,
}

impl MonitorConfig {
    /// The configuration that `default` and `new` give: the processor every
    /// 5 s, the memory every 10 s, the volumes every 300 s and the network
    /// interfaces every 3 s.
    pub open spec fn spec_default() -> MonitorConfig {
        MonitorConfig {
            cpu_interval: Interval { nanos: 5_000_000_000 },
            memory_interval: Interval { nanos: 10_000_000_000 },
            disk_interval: Interval { nanos: 300_000_000_000 },
            network_interval: Interval { nanos: 3_000_000_000 },
        }
    }

    /// The default configuration.
    pub fn new() -> (r: Self)
        ensures
            r == Self::spec_default(),
    {
        MonitorConfig {
            cpu_interval: Interval::from_secs(5),
            memory_interval: Interval::from_secs(10),
            disk_interval: Interval::from_secs(300),
            network_interval: Interval::from_secs(3),
        }
    }

    /// The same configuration with the processor sampled every `interval`.
    pub fn cpu_interval(self, interval: Interval) -> (r: Self)
        ensures
            r == (MonitorConfig { cpu_interval: interval, ..self }),
    {
        MonitorConfig { cpu_interval: interval, ..self }
    }

    /// The same configuration with the memory sampled every `interval`.
    pub fn memory_interval(self, interval: Interval) -> (r: Self)
        ensures
            r == (MonitorConfig { memory_interval: interval, ..self }),
    {
        MonitorConfig { memory_interval: interval, ..self }
    }

    /// The same configuration with the volumes sampled every `interval`.
    pub fn disk_interval(self, interval: Interval) -> (r: Self)
        ensures
            r == (MonitorConfig { disk_interval: interval, ..self }),
    {
        MonitorConfig { disk_interval: interval, ..self }
    }

    /// The same configuration with the network interfaces sampled every
    /// `interval`.
    pub fn network_interval(self, interval: Interval) -> (r: Self)
        ensures
            r == (MonitorConfig { network_interval: interval, ..self }),
    {
        MonitorConfig { network_interval: interval, ..self }
    }
}

impl Default for MonitorConfig {
    fn default() -> (r: Self)
        ensures
            r == Self::spec_default(),
    {
        MonitorConfig::new()
    }
}

} // verus!
