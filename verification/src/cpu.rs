//! Processor usage and temperature.

use crate::percent::Percent;
use crate::percent::FULL_SCALE;
use crate::sums::prefix_sum;
use crate::sums::sum;
use crate::text::chars_of;
use crate::text::contains;
use crate::text::holds;
use crate::types::CpuCoreInfo;
use crate::types::CpuInfo;
use vstd::prelude::*;

verus! {

/// One logical core, as read from the operating system.
#[derive(Debug, Clone, PartialEq, Eq)]
pub struct CoreReading {
    /// Name of the core.
    pub name: String,
    /// Brand of the processor that the core belongs to.
    pub brand: String,
    /// Share of the time since the previous reading that the core was busy.
    pub usage: Percent,
    /// Clock frequency in MHz.
    pub frequency: u64,
}

/// One hardware temperature sensor, as read from the operating system.
#[derive(Debug, Clone, PartialEq, Eq)]
pub struct SensorReading {
    /// Label of the sensor.
    pub label: String,
    /// Temperature in thousandths of a degree Celsius, where the sensor gave
    /// one.
    pub temperature: Option<i32>,
}

/// All that is read of the processor for one sample.
#[derive(Debug, Clone, PartialEq, Eq)]
pub struct CpuReading {
    /// The logical cores, in the order in which the system lists them.
    pub cores: Vec<CoreReading>,
    /// The temperature sensors, in the order in which the system lists them.
    pub sensors: Vec<SensorReading>,
    /// Number of physical cores, where the platform reports it.
    pub physical_core_count: Option<usize>,
}

/// The text `s` in lower case, as `str::to_lowercase` of the standard library
/// gives it.
pub uninterp spec fn lowercase(s: Seq<char>) -> Seq<char>;

/// Calls `str::to_lowercase`, which maps every character to its lower case
/// by the Unicode tables, whatever the locale. The result is named
/// [`lowercase`]; nothing else is claimed of it.
#[verifier::external_body]
fn to_lowercase(s: &str) -> (lowered: String)
    ensures
        lowered@ == lowercase(s@),
{
    s.to_lowercase()
}

/// Whether a label, given in lower case, names a sensor of the processor: it
/// holds one of the words `cpu`, `core` and `package`.
pub open spec fn names_cpu(lowered: Seq<char>) -> bool {
    ||| contains(lowered, "cpu"@)
    ||| contains(lowered, "core"@)
    ||| contains(lowered, "package"@)
}

/// Whether a sensor is taken for one of the processor: its label names the
/// processor, in whatever case it is written.
pub open spec fn is_cpu_sensor(sensor: SensorReading) -> bool {
    names_cpu(lowercase(sensor.label@))
}

/// Sensor `i` is the first sensor of the processor in the list.
pub open spec fn is_first_cpu_sensor(sensors: Seq<SensorReading>, i: int) -> bool {
    &&& 0 <= i < sensors.len()
    &&& is_cpu_sensor(sensors[i])
    &&& forall|j: int| 0 <= j < i ==> !is_cpu_sensor(#[trigger] sensors[j])
}

/// The temperature that is reported for the processor: what the first sensor
/// of the processor gave; where no sensor is one of the processor, what the
/// first sensor gave; nothing where there is no sensor.
pub open spec fn chosen_temperature(sensors: Seq<SensorReading>) -> Option<i32> {
    if exists|i: int| is_first_cpu_sensor(sensors, i) {
        sensors[choose|i: int| is_first_cpu_sensor(sensors, i)].temperature
    } else if sensors.len() > 0 {
        sensors[0].temperature
    } else {
        None
    }
}

/// What is reported of one core. A usage above 100 % is reported as 100 %.
pub open spec fn core_info(reading: CoreReading) -> CpuCoreInfo {
    CpuCoreInfo {
        name: reading.name,
        usage: Percent::clamped(reading.usage.hundredths as nat),
        frequency: reading.frequency,
    }
}

/// What is reported of all cores, in their order.
pub open spec fn cores_of(cores: Seq<CoreReading>) -> Seq<CpuCoreInfo> {
    Seq::new(cores.len(), |i: int| core_info(cores[i]))
}

/// The usage of each of a list of cores, in hundredths of a percent.
pub open spec fn usages(cores: Seq<CpuCoreInfo>) -> Seq<nat> {
    Seq::new(cores.len(), |i: int| cores[i].usage.hundredths as nat)
}

/// The mean of the usage of a list of cores, rounded down to a hundredth of a
/// percent, and 0 % for an empty list.
pub open spec fn mean_usage(cores: Seq<CpuCoreInfo>) -> Percent {
    if cores.len() == 0 {
        Percent { hundredths: 0 }
    } else {
        Percent { hundredths: (sum(usages(cores)) / cores.len()) as u32 }
    }
}

/// The brand that is reported: that of the first core, and the empty text
/// where there is no core.
pub open spec fn brand_of(cores: Seq<CoreReading>) -> Seq<char> {
    if cores.len() > 0 {
        cores[0].brand@
    } else {
        Seq::empty()
    }
}

impl CpuInfo {
    /// The snapshot is that of `reading`: the brand of its first core, the
    /// mean usage of its cores, its cores one by one, the temperature chosen
    /// among its sensors, and its number of physical cores.
    pub open spec fn is_snapshot_of(self, reading: CpuReading) -> bool {
        &&& self.brand@ == brand_of(reading.cores@)
        &&& self.total_usage == mean_usage(cores_of(reading.cores@))
        &&& self.cores@ == cores_of(reading.cores@)
        &&& self.temperature == chosen_temperature(reading.sensors@)
        &&& self.physical_core_count == reading.physical_core_count
    }
}

/// At most one sensor is the first sensor of the processor.
pub proof fn lemma_first_cpu_sensor_unique(sensors: Seq<SensorReading>, i: int, j: int)
    requires
        is_first_cpu_sensor(sensors, i),
        is_first_cpu_sensor(sensors, j),
    ensures
        i == j,
{
}

/// The temperature that is reported is that of the first sensor of the
/// processor, where there is one, and that of the first sensor of all where
/// no sensor is one of the processor.
pub proof fn lemma_chosen_temperature(sensors: Seq<SensorReading>)
    ensures
        forall|i: int|
            is_first_cpu_sensor(sensors, i) ==> chosen_temperature(sensors)
                == sensors[i].temperature,
        (forall|i: int| 0 <= i < sensors.len() ==> !is_cpu_sensor(#[trigger] sensors[i]))
            && sensors.len() > 0 ==> chosen_temperature(sensors) == sensors[0].temperature,
        sensors.len() == 0 ==> chosen_temperature(sensors) is None,
{
    assert forall|i: int| is_first_cpu_sensor(sensors, i) implies chosen_temperature(sensors)
        == sensors[i].temperature by {
        let chosen = choose|c: int| is_first_cpu_sensor(sensors, c);
        lemma_first_cpu_sensor_unique(sensors, i, chosen);
    }
}

/// The sum of the usage of the first `n` cores is no more than `n` times
/// 100 %, where every core is within that.
proof fn lemma_usage_sum_bound(cores: Seq<CpuCoreInfo>, n: nat)
    requires
        n <= cores.len(),
        forall|i: int| 0 <= i < cores.len() ==> (#[trigger] cores[i]).usage.in_range(),
    ensures
        prefix_sum(usages(cores), n) <= n * FULL_SCALE,
    decreases n,
{
    if n > 0 {
        lemma_usage_sum_bound(cores, (n - 1) as nat);
    }
}

/// The mean of usages that lie between 0 % and 100 % lies between 0 % and
/// 100 %, and the mean over no core is 0 %.
pub proof fn lemma_mean_usage_in_range(cores: Seq<CpuCoreInfo>)
    requires
        forall|i: int| 0 <= i < cores.len() ==> (#[trigger] cores[i]).usage.in_range(),
    ensures
        mean_usage(cores).in_range(),
        cores.len() > 0 ==> mean_usage(cores).hundredths == sum(usages(cores)) / cores.len(),
        cores.len() == 0 ==> mean_usage(cores).hundredths == 0,
{
    if cores.len() > 0 {
        lemma_usage_sum_bound(cores, cores.len());
        let total = sum(usages(cores)) as int;
        let n = cores.len() as int;
        assert(0 <= total / n <= 10_000) by (nonlinear_arith)
            requires
                n > 0,
                0 <= total <= n * 10_000,
        ;
    }
}

/// Every core that is reported has a usage between 0 % and 100 %.
pub proof fn lemma_cores_in_range(cores: Seq<CoreReading>)
    ensures
        forall|i: int|
            0 <= i < cores_of(cores).len() ==> (#[trigger] cores_of(cores)[i]).usage.in_range(),
{
}

/// Whether a label, given in lower case, names a sensor of the processor.
pub fn label_names_cpu(lowered: &str) -> (named: bool)
    ensures
        named == names_cpu(lowered@),
{
    let label = chars_of(lowered);
    let first = chars_of("cpu");
    let second = chars_of("core");
    let third = chars_of("package");
    holds(&label, &first) || holds(&label, &second) || holds(&label, &third)
}

/// Picks the temperature that is reported for the processor from what the
/// sensors gave.
///
/// Which sensor belongs to the processor is guessed from its label, and the
/// labels differ from platform to platform: the result is a best effort.
pub fn pick_temperature(sensors: &Vec<SensorReading>) -> (temperature: Option<i32>)
    ensures
        temperature == chosen_temperature(sensors@),
{
    let mut i: usize = 0;
    while i < sensors.len()
        invariant
            i <= sensors.len(),
            forall|j: int| 0 <= j < i ==> !is_cpu_sensor(#[trigger] sensors@[j]),
        decreases sensors.len() - i,
    {
        let lowered = to_lowercase(sensors[i].label.as_str());
        if label_names_cpu(lowered.as_str()) {
            proof {
                assert(is_first_cpu_sensor(sensors@, i as int));
                let chosen = choose|c: int| is_first_cpu_sensor(sensors@, c);
                lemma_first_cpu_sensor_unique(sensors@, i as int, chosen);
            }
            return sensors[i].temperature;
        }
        i += 1;
    }
    if sensors.len() > 0 {
        sensors[0].temperature
    } else {
        None
    }
}

/// What is reported of each core of `cores`.
fn describe(cores: &Vec<CoreReading>) -> (infos: Vec<CpuCoreInfo>)
    ensures
        infos@ == cores_of(cores@),
{
    let mut infos: Vec<CpuCoreInfo> = Vec::new();
    let mut i: usize = 0;
    while i < cores.len()
        invariant
            i <= cores.len(),
            infos@.len() == i,
            forall|k: int| 0 <= k < i ==> #[trigger] infos@[k] == core_info(cores@[k]),
        decreases cores.len() - i,
    {
        let reading = &cores[i];
        infos.push(
            CpuCoreInfo {
                name: reading.name.clone(),
                usage: Percent::from_hundredths(reading.usage.hundredths),
                frequency: reading.frequency,
            },
        );
        i += 1;
    }
    infos
}

/// The mean of the usage of `cores`.
fn mean(cores: &Vec<CpuCoreInfo>) -> (usage: Percent)
    requires
        forall|i: int| 0 <= i < cores.len() ==> (#[trigger] cores@[i]).usage.in_range(),
    ensures
        usage == mean_usage(cores@),
        usage.in_range(),
{
    if cores.len() == 0 {
        return Percent::zero();
    }
    let mut total: u128 = 0;
    let mut i: usize = 0;
    while i < cores.len()
        invariant
            i <= cores.len(),
            forall|k: int| 0 <= k < cores.len() ==> (#[trigger] cores@[k]).usage.in_range(),
            total == prefix_sum(usages(cores@), i as nat),
            total <= i * FULL_SCALE,
        decreases cores.len() - i,
    {
        assert(i * FULL_SCALE <= usize::MAX * 10_000) by (nonlinear_arith)
            requires
                i <= usize::MAX,
                FULL_SCALE == 10_000,
        ;
        total = total + cores[i].usage.hundredths as u128;
        i += 1;
    }
    proof {
        lemma_mean_usage_in_range(cores@);
    }
    let quotient: u128 = total / (cores.len() as u128);
    Percent { hundredths: quotient as u32 }
}

/// Turns readings of the processor into snapshots.
#[derive(Debug, Clone, Copy)]
pub struct CpuCollector {}

impl CpuCollector {
    /// A collector.
    pub fn new() -> Self {
        CpuCollector {  }
    }

    /// Takes a sample: the snapshot of `reading`, which holds all logical
    /// cores and all temperature sensors as they are now.
    pub fn collect(&mut self, reading: &CpuReading) -> (info: CpuInfo)
        ensures
            info.is_snapshot_of(*reading),
            info.total_usage.in_range(),
    {
        let brand = if reading.cores.len() > 0 {
            reading.cores[0].brand.clone()
        } else {
            String::new()
        };
        let cores = describe(&reading.cores);
        let total_usage = mean(&cores);
        let temperature = pick_temperature(&reading.sensors);
        CpuInfo {
            brand,
            total_usage,
            cores,
            temperature,
            physical_core_count: reading.physical_core_count,
        }
    }
}

impl Default for CpuCollector {
    fn default() -> Self {
        CpuCollector::new()
    }
}

} // verus!
