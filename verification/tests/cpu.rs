use tatsu_monitor::cpu::label_names_cpu;
use tatsu_monitor::cpu::pick_temperature;
use tatsu_monitor::cpu::CoreReading;
use tatsu_monitor::cpu::CpuCollector;
use tatsu_monitor::cpu::CpuReading;
use tatsu_monitor::cpu::SensorReading;
use tatsu_monitor::percent::Percent;
use tatsu_monitor::types::CpuInfo;

fn core_reading(name: &str, hundredths: u32, frequency: u64) -> CoreReading {
    CoreReading {
        name: name.to_string(),
        brand: "Example CPU @ 3.00GHz".to_string(),
        usage: Percent { hundredths },
        frequency,
    }
}

fn sensor(label: &str, temperature: Option<i32>) -> SensorReading {
    SensorReading { label: label.to_string(), temperature }
}

fn reading(cores: Vec<CoreReading>, sensors: Vec<SensorReading>) -> CpuReading {
    CpuReading { cores, sensors, physical_core_count: None }
}

#[test]
fn overall_usage_is_the_mean_of_the_cores() {
    let cores = vec![
        core_reading("cpu0", 1_000, 3_000),
        core_reading("cpu1", 2_000, 3_100),
        core_reading("cpu2", 3_000, 3_200),
        core_reading("cpu3", 10_000, 3_300),
    ];
    let info = CpuCollector::new().collect(&reading(cores, Vec::new()));
    assert_eq!(info.total_usage.hundredths(), 4_000);
    assert_eq!(info.cores.len(), 4);
    assert_eq!(info.cores[0].name, "cpu0");
    assert_eq!(info.cores[0].usage.hundredths(), 1_000);
    assert_eq!(info.cores[0].frequency, 3_000);
    assert_eq!(info.cores[3].name, "cpu3");
    assert_eq!(info.cores[3].usage, Percent::full());
    assert_eq!(info.cores[3].frequency, 3_300);
    assert_eq!(info.brand, "Example CPU @ 3.00GHz");
}

#[test]
fn mean_is_rounded_down() {
    let cores = vec![core_reading("cpu0", 1, 0), core_reading("cpu1", 2, 0)];
    let info = CpuCollector::new().collect(&reading(cores, Vec::new()));
    assert_eq!(info.total_usage.hundredths(), 1);
    let cores = vec![core_reading("cpu0", 0, 0), core_reading("cpu1", 0, 0), core_reading("cpu2", 2, 0)];
    let info = CpuCollector::new().collect(&reading(cores, Vec::new()));
    assert_eq!(info.total_usage.hundredths(), 0);
}

#[test]
fn one_core() {
    let info = CpuCollector::new().collect(&reading(vec![core_reading("cpu0", 4_242, 1_800)], Vec::new()));
    assert_eq!(info.total_usage.hundredths(), 4_242);
}

#[test]
fn no_core() {
    let info = CpuCollector::new().collect(&reading(Vec::new(), Vec::new()));
    assert_eq!(info, CpuInfo::default());
    assert_eq!(info.brand, "");
    assert_eq!(info.total_usage, Percent::zero());
    assert!(info.cores.is_empty());
    assert_eq!(info.temperature, None);
    assert_eq!(info.physical_core_count, None);
}

#[test]
fn usage_above_the_whole_is_held_to_it() {
    let cores = vec![core_reading("cpu0", 20_000, 0), core_reading("cpu1", u32::MAX, 0), core_reading("cpu2", 4_000, 0)];
    let info = CpuCollector::new().collect(&reading(cores, Vec::new()));
    assert_eq!(info.cores[0].usage, Percent::full());
    assert_eq!(info.cores[1].usage, Percent::full());
    assert_eq!(info.cores[2].usage.hundredths(), 4_000);
    assert_eq!(info.total_usage.hundredths(), 8_000);
}

#[test]
fn brand_is_that_of_the_first_core() {
    let mut first = core_reading("cpu0", 0, 0);
    first.brand = "First".to_string();
    let mut second = core_reading("cpu1", 0, 0);
    second.brand = "Second".to_string();
    let info = CpuCollector::new().collect(&reading(vec![first, second], Vec::new()));
    assert_eq!(info.brand, "First");
}

#[test]
fn physical_core_count_passes_through() {
    let mut input = reading(vec![core_reading("cpu0", 0, 0)], Vec::new());
    input.physical_core_count = Some(8);
    assert_eq!(CpuCollector::new().collect(&input).physical_core_count, Some(8));
    input.physical_core_count = None;
    assert_eq!(CpuCollector::default().collect(&input).physical_core_count, None);
}

#[test]
fn labels_that_name_the_processor() {
    assert!(label_names_cpu("cpu"));
    assert!(label_names_cpu("k10temp tctl cpu"));
    assert!(label_names_cpu("core 0"));
    assert!(label_names_cpu("coretemp package id 0"));
    assert!(label_names_cpu("package"));
    assert!(label_names_cpu("xxpackagexx"));
    assert!(label_names_cpu("acpicpu"));
    assert!(label_names_cpu("score"));
}

#[test]
fn labels_that_do_not_name_the_processor() {
    assert!(!label_names_cpu(""));
    assert!(!label_names_cpu("cp"));
    assert!(!label_names_cpu("c p u"));
    assert!(!label_names_cpu("cor"));
    assert!(!label_names_cpu("packag"));
    assert!(!label_names_cpu("nvme composite"));
    assert!(!label_names_cpu("acpitz temp1"));
    assert!(!label_names_cpu("CPU"));
    assert!(!label_names_cpu("Core 0"));
    assert!(!label_names_cpu("upc"));
}

#[test]
fn first_sensor_of_the_processor_is_taken() {
    let sensors = vec![
        sensor("nvme Composite", Some(38_000)),
        sensor("coretemp Package id 0", Some(51_000)),
        sensor("coretemp Core 0", Some(49_000)),
    ];
    assert_eq!(pick_temperature(&sensors), Some(51_000));
}

#[test]
fn labels_are_matched_in_any_case() {
    assert_eq!(pick_temperature(&vec![sensor("gpu", Some(1)), sensor("CPU", Some(2))]), Some(2));
    assert_eq!(pick_temperature(&vec![sensor("gpu", Some(1)), sensor("Core 1", Some(3))]), Some(3));
    assert_eq!(
        pick_temperature(&vec![sensor("gpu", Some(1)), sensor("PACKAGE id 0", Some(4))]),
        Some(4)
    );
    assert_eq!(pick_temperature(&vec![sensor("gpu", Some(1)), sensor("Tdie cPu", Some(5))]), Some(5));
}

#[test]
fn first_sensor_is_taken_where_none_names_the_processor() {
    let sensors = vec![sensor("acpitz", Some(27_800)), sensor("nvme", Some(40_000))];
    assert_eq!(pick_temperature(&sensors), Some(27_800));
    let sensors = vec![sensor("acpitz", None), sensor("nvme", Some(40_000))];
    assert_eq!(pick_temperature(&sensors), None);
}

#[test]
fn no_sensor_no_temperature() {
    assert_eq!(pick_temperature(&Vec::new()), None);
}

#[test]
fn sensor_of_the_processor_without_a_reading() {
    let sensors = vec![
        sensor("acpitz", Some(27_800)),
        sensor("cpu thermal", None),
        sensor("core 0", Some(50_000)),
    ];
    assert_eq!(pick_temperature(&sensors), None);
}

#[test]
fn temperature_below_zero() {
    assert_eq!(pick_temperature(&vec![sensor("CPU", Some(-12_500))]), Some(-12_500));
}

#[test]
fn snapshot_holds_the_chosen_temperature() {
    let input = reading(
        vec![core_reading("cpu0", 500, 2_400)],
        vec![sensor("Battery", Some(30_000)), sensor("CPU die", Some(61_250))],
    );
    assert_eq!(CpuCollector::new().collect(&input).temperature, Some(61_250));
}
