use tatsu_monitor::interval::Interval;
use tatsu_monitor::lifecycle::WorkerControl;
use tatsu_monitor::schedule::Due;
use tatsu_monitor::schedule::Schedule;
use tatsu_monitor::schedule::BASE_TICK_NANOS;
use tatsu_monitor::types::MonitorConfig;

const ALL: Due = Due { cpu: true, memory: true, disk: true, network: true };
const NONE: Due = Due { cpu: false, memory: false, disk: false, network: false };

#[test]
fn default_intervals() {
    let config = MonitorConfig::new();
    assert_eq!(config.cpu_interval, Interval::from_secs(5));
    assert_eq!(config.memory_interval, Interval::from_secs(10));
    assert_eq!(config.disk_interval, Interval::from_secs(300));
    assert_eq!(config.network_interval, Interval::from_secs(3));
    assert_eq!(MonitorConfig::default(), config);
}

#[test]
fn each_interval_is_set_alone() {
    let base = MonitorConfig::new();
    let config = base.cpu_interval(Interval::from_millis(500));
    assert_eq!(config.cpu_interval, Interval::from_millis(500));
    assert_eq!(config.memory_interval, base.memory_interval);
    assert_eq!(config.disk_interval, base.disk_interval);
    assert_eq!(config.network_interval, base.network_interval);

    let config = base.memory_interval(Interval::from_millis(600));
    assert_eq!(config.memory_interval, Interval::from_millis(600));
    assert_eq!(config.cpu_interval, base.cpu_interval);

    let config = base.disk_interval(Interval::from_secs(1));
    assert_eq!(config.disk_interval, Interval::from_secs(1));
    assert_eq!(config.network_interval, base.network_interval);

    let config = base.network_interval(Interval::from_millis(700));
    assert_eq!(config.network_interval, Interval::from_millis(700));
    assert_eq!(config.disk_interval, base.disk_interval);
}

#[test]
fn builder_chain() {
    let config = MonitorConfig::new()
        .cpu_interval(Interval::from_millis(500))
        .memory_interval(Interval::from_millis(500))
        .disk_interval(Interval::from_secs(1))
        .network_interval(Interval::from_millis(500));
    assert_eq!(config.cpu_interval.as_millis(), 500);
    assert_eq!(config.memory_interval.as_millis(), 500);
    assert_eq!(config.disk_interval.as_millis(), 1_000);
    assert_eq!(config.network_interval.as_millis(), 500);
}

#[test]
fn base_tick_is_a_tenth_of_a_second() {
    assert_eq!(BASE_TICK_NANOS, 100_000_000);
    assert_eq!(Schedule::base_tick(), Interval::from_millis(100));
    assert_eq!(Schedule::settle_delay(), Interval::from_millis(100));
}

#[test]
fn everything_is_due_at_first() {
    let mut schedule = Schedule::new(MonitorConfig::new());
    assert_eq!(schedule.poll(), ALL);
    assert_eq!(schedule.cpu_countdown, Interval::from_secs(5));
    assert_eq!(schedule.memory_countdown, Interval::from_secs(10));
    assert_eq!(schedule.disk_countdown, Interval::from_secs(300));
    assert_eq!(schedule.network_countdown, Interval::from_secs(3));
    assert_eq!(schedule.poll(), NONE);
}

#[test]
fn tick_takes_a_tenth_of_a_second_off() {
    let mut schedule = Schedule::new(MonitorConfig::new());
    schedule.poll();
    schedule.tick();
    assert_eq!(schedule.cpu_countdown, Interval::from_millis(4_900));
    assert_eq!(schedule.memory_countdown, Interval::from_millis(9_900));
    assert_eq!(schedule.disk_countdown, Interval::from_millis(299_900));
    assert_eq!(schedule.network_countdown, Interval::from_millis(2_900));
}

#[test]
fn countdown_stops_at_zero() {
    let config = MonitorConfig::new().cpu_interval(Interval::from_millis(250));
    let mut schedule = Schedule::new(config);
    schedule.poll();
    schedule.tick();
    schedule.tick();
    assert_eq!(schedule.cpu_countdown, Interval::from_millis(50));
    schedule.tick();
    assert_eq!(schedule.cpu_countdown, Interval::zero());
    schedule.tick();
    assert_eq!(schedule.cpu_countdown, Interval::zero());
}

/// Runs the worker's loop for `rounds` wake-ups and counts how often each
/// kind of sample is taken.
fn run(config: MonitorConfig, rounds: usize) -> [usize; 4] {
    let mut schedule = Schedule::new(config);
    let mut taken = [0usize; 4];
    for _ in 0..rounds {
        let due = schedule.poll();
        taken[0] += due.cpu as usize;
        taken[1] += due.memory as usize;
        taken[2] += due.disk as usize;
        taken[3] += due.network as usize;
        schedule.tick();
    }
    taken
}

#[test]
fn four_cadences_on_one_worker() {
    let config = MonitorConfig::new()
        .cpu_interval(Interval::from_secs(1))
        .memory_interval(Interval::from_secs(2))
        .disk_interval(Interval::from_secs(5))
        .network_interval(Interval::from_millis(500));
    // 10 s of wake-ups, the first at 0 s and the last at 9.9 s
    assert_eq!(run(config, 100), [10, 5, 2, 20]);
    // one wake-up more, at 10 s: everything is due again
    assert_eq!(run(config, 101), [11, 6, 3, 21]);
}

#[test]
fn interval_is_rounded_up_to_whole_ticks() {
    // 250 ms: due after 3 ticks, so at 0, 300, 600, 900 ms
    let config = MonitorConfig::new().cpu_interval(Interval::from_millis(250));
    assert_eq!(run(config, 10)[0], 4);
    // 1 ns over a tick: due after 2 ticks
    let config = MonitorConfig::new().cpu_interval(Interval::from_nanos(100_000_001));
    assert_eq!(run(config, 10)[0], 5);
    // exactly one tick
    let config = MonitorConfig::new().cpu_interval(Interval::from_millis(100));
    assert_eq!(run(config, 10)[0], 10);
}

#[test]
fn zero_interval_is_due_at_every_wake_up() {
    let config = MonitorConfig::new().network_interval(Interval::zero());
    assert_eq!(run(config, 7)[3], 7);
    let config = MonitorConfig::new().network_interval(Interval::from_nanos(1));
    assert_eq!(run(config, 7)[3], 7);
}

#[test]
fn start_is_idempotent() {
    let mut control = WorkerControl::new();
    assert!(!control.is_running());
    assert!(control.start());
    assert!(control.is_running());
    assert!(!control.start());
    assert!(!control.start());
    assert!(control.is_running());
    assert_eq!(control.stop(), 1);
    assert!(!control.is_running());
}

#[test]
fn stop_is_idempotent() {
    let mut control = WorkerControl::new();
    assert_eq!(control.stop(), 0);
    assert!(!control.is_running());
    assert!(control.start());
    assert_eq!(control.stop(), 1);
    assert_eq!(control.stop(), 0);
    assert!(!control.is_running());
    assert!(control.start());
    assert!(control.is_running());
}
