use tatsu_monitor::cpu::CoreReading;
use tatsu_monitor::cpu::CpuCollector;
use tatsu_monitor::cpu::CpuReading;
use tatsu_monitor::cpu::SensorReading;
use tatsu_monitor::disk::DiskCollector;
use tatsu_monitor::disk::DiskReading;
use tatsu_monitor::interval::Interval;
use tatsu_monitor::lifecycle::WorkerControl;
use tatsu_monitor::memory::MemoryCollector;
use tatsu_monitor::memory::MemoryReading;
use tatsu_monitor::network::InterfaceReading;
use tatsu_monitor::network::NetworkCollector;
use tatsu_monitor::percent::Percent;
use tatsu_monitor::sampler::get_system_info_once;
use tatsu_monitor::sampler::refresh_all;
use tatsu_monitor::sampler::HostReading;
use tatsu_monitor::sampler::Snapshots;
use tatsu_monitor::schedule::Schedule;
use tatsu_monitor::types::MonitorConfig;
use tatsu_monitor::types::SystemInfo;

const GIB: u64 = 1024 * 1024 * 1024;

/// A host with two cores, one sensor, one volume and two interfaces. Its
/// counters grow with `round`.
fn host(round: u64) -> HostReading {
    HostReading {
        cpu: CpuReading {
            cores: vec![
                CoreReading {
                    name: "cpu0".to_string(),
                    brand: "Example".to_string(),
                    usage: Percent::from_hundredths(1_000),
                    frequency: 2_400,
                },
                CoreReading {
                    name: "cpu1".to_string(),
                    brand: "Example".to_string(),
                    usage: Percent::from_hundredths(3_000),
                    frequency: 2_400,
                },
            ],
            sensors: vec![SensorReading {
                label: "Package id 0".to_string(),
                temperature: Some(45_000),
            }],
            physical_core_count: Some(1),
        },
        memory: MemoryReading {
            total: 8 * GIB,
            used: 2 * GIB,
            available: 6 * GIB,
            swap_total: 0,
            swap_used: 0,
        },
        disks: vec![DiskReading {
            name: "sda".to_string(),
            mount_point: "/".to_string(),
            file_system: "ext4".to_string(),
            total: 100 * GIB,
            available: 75 * GIB,
            is_removable: false,
        }],
        interfaces: vec![
            InterfaceReading { name: "lo".to_string(), received: round, transmitted: round },
            InterfaceReading {
                name: "eth0".to_string(),
                received: 1_000 * round,
                transmitted: 100 * round,
            },
        ],
    }
}

#[test]
fn test_get_system_info_once() {
    let info = get_system_info_once(&host(1), Some(Interval::from_secs(1_700_000_000))).unwrap();
    assert!(info.memory.total > 0);
}

#[test]
fn test_monitor_basic() {
    let config = MonitorConfig::new()
        .cpu_interval(Interval::from_millis(500))
        .memory_interval(Interval::from_millis(500))
        .disk_interval(Interval::from_secs(1))
        .network_interval(Interval::from_millis(500));

    let mut control = WorkerControl::new();
    assert!(control.start());

    // what the worker does in one second: ten wake-ups
    let mut schedule = Schedule::new(config);
    let mut cpu = CpuCollector::new();
    let mut memory = MemoryCollector::new();
    let mut disk = DiskCollector::new();
    let mut network = NetworkCollector::new();
    let mut latest = Snapshots::default();
    let tick = Schedule::base_tick().as_nanos();
    for round in 0..10u64 {
        let reading = host(round);
        let due = schedule.poll();
        if due.cpu {
            latest.cpu = cpu.collect(&reading.cpu);
        }
        if due.memory {
            latest.memory = memory.collect(reading.memory);
        }
        if due.disk {
            latest.disk = disk.collect(&reading.disks);
        }
        if due.network {
            let now = Interval::from_nanos(tick * round as u128);
            latest.network = network.collect(&reading.interfaces, now);
        }
        schedule.tick();
    }

    let info = SystemInfo::stamped(
        latest.cpu,
        latest.memory,
        latest.disk,
        latest.network,
        Some(Interval::from_secs(1)),
    );

    assert!(info.memory.total > 0);
    assert!(!info.disk.disks.is_empty());

    control.stop();
    assert!(!control.is_running());

    // the network was sampled at 0 ms and at 500 ms
    assert_eq!(info.network.interfaces[1].download_speed, 10_000);
    assert_eq!(info.network.interfaces[1].upload_speed, 1_000);
    assert_eq!(info.network.interfaces[0].download_speed, 10);
    assert_eq!(info.timestamp, 1_000);
}

#[test]
fn one_sample_of_everything() {
    let snapshots = refresh_all(&host(7)).unwrap();
    assert_eq!(snapshots.cpu.brand, "Example");
    assert_eq!(snapshots.cpu.total_usage.hundredths(), 2_000);
    assert_eq!(snapshots.cpu.cores.len(), 2);
    assert_eq!(snapshots.cpu.temperature, Some(45_000));
    assert_eq!(snapshots.cpu.physical_core_count, Some(1));
    assert_eq!(snapshots.memory.total, 8 * GIB);
    assert_eq!(snapshots.memory.usage_percent.hundredths(), 2_500);
    assert_eq!(snapshots.disk.disks.len(), 1);
    assert_eq!(snapshots.disk.total_used, 25 * GIB);
    assert_eq!(snapshots.disk.total_usage_percent.hundredths(), 2_500);
    assert_eq!(snapshots.network.interfaces.len(), 2);
    assert_eq!(snapshots.network.total_downloaded, 7_007);
    assert_eq!(snapshots.network.total_uploaded, 707);
}

#[test]
fn one_off_sample_reports_no_rates() {
    for round in [0, 1, 1_000_000] {
        let snapshots = refresh_all(&host(round)).unwrap();
        for interface in &snapshots.network.interfaces {
            assert_eq!(interface.upload_speed, 0);
            assert_eq!(interface.download_speed, 0);
        }
        assert_eq!(snapshots.network.total_upload_speed, 0);
        assert_eq!(snapshots.network.total_download_speed, 0);
    }
    // every call starts anew
    let first = refresh_all(&host(1)).unwrap();
    let second = refresh_all(&host(2)).unwrap();
    assert_eq!(first.network.total_download_speed, 0);
    assert_eq!(second.network.total_download_speed, 0);
    assert_eq!(second.network.total_downloaded, 2_002);
}

#[test]
fn one_off_sample_is_stamped() {
    let info = get_system_info_once(&host(3), Some(Interval::from_millis(1_234_567))).unwrap();
    assert_eq!(info.timestamp, 1_234_567);
    let snapshots = refresh_all(&host(3)).unwrap();
    assert_eq!(info.cpu, snapshots.cpu);
    assert_eq!(info.memory, snapshots.memory);
    assert_eq!(info.disk, snapshots.disk);
    assert_eq!(info.network, snapshots.network);
    let info = get_system_info_once(&host(3), None).unwrap();
    assert_eq!(info.timestamp, 0);
}

#[test]
fn one_off_sample_of_an_empty_host() {
    let reading = HostReading {
        cpu: CpuReading { cores: Vec::new(), sensors: Vec::new(), physical_core_count: None },
        memory: MemoryReading { total: 0, used: 0, available: 0, swap_total: 0, swap_used: 0 },
        disks: Vec::new(),
        interfaces: Vec::new(),
    };
    assert_eq!(refresh_all(&reading), Some(Snapshots::default()));
    assert_eq!(get_system_info_once(&reading, None), Some(SystemInfo::default()));
}

#[test]
fn one_off_sample_whose_totals_do_not_fit() {
    let mut reading = host(1);
    reading.disks.push(DiskReading {
        name: "huge".to_string(),
        mount_point: "/huge".to_string(),
        file_system: "zfs".to_string(),
        total: u64::MAX,
        available: 0,
        is_removable: false,
    });
    assert_eq!(refresh_all(&reading), None);
    assert_eq!(get_system_info_once(&reading, None), None);

    let mut reading = host(1);
    reading.interfaces.push(InterfaceReading {
        name: "huge".to_string(),
        received: u64::MAX,
        transmitted: 0,
    });
    assert_eq!(refresh_all(&reading), None);
}
