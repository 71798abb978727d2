//! Network throughput from cumulative byte counters.
//!
//! The operating system counts the bytes that each interface has received and
//! sent since it came up. A [`NetworkCollector`] remembers, for each interface
//! name, the counters it saw last and when it saw them: the baseline. From the
//! baseline and a new reading of the counters it derives the rates of the
//! interface in bytes per second.

use crate::interval::Interval;
use crate::interval::NANOS_PER_SEC;
use crate::sums::lemma_prefix_sum_monotone;
use crate::sums::prefix_sum;
use crate::sums::sum;
use crate::types::NetworkInfo;
use crate::types::NetworkInterfaceInfo;
use vstd::prelude::*;

verus! {

/// The cumulative counters of one interface, as read from the operating
/// system.
#[derive(Debug, Clone, PartialEq, Eq)]
pub struct InterfaceReading {
    /// Name of the interface.
    pub name: String,
    /// Bytes received since the interface came up.
    pub received: u64,
    /// Bytes sent since the interface came up.
    pub transmitted: u64,
}

/// The counters of an interface as they were last seen, and the clock reading
/// at that time.
#[derive(Debug, Clone, Copy, PartialEq, Eq, Structural)]
pub struct Baseline {
    /// Bytes received.
    pub received: u64,
    /// Bytes sent.
    pub transmitted: u64,
    /// Reading of the monotonic clock.
    pub timestamp: Interval,
}

/// Bytes per second, given the bytes that passed in a span of time: the
/// quotient rounded down, `u64::MAX` where it is larger than that, and zero
/// for a span of zero length.
pub open spec fn spec_rate(bytes: nat, elapsed_nanos: nat) -> u64 {
    if elapsed_nanos == 0 {
        0
    } else if (bytes * NANOS_PER_SEC) / (elapsed_nanos as int) > u64::MAX {
        u64::MAX
    } else {
        ((bytes * NANOS_PER_SEC) / (elapsed_nanos as int)) as u64
    }
}

/// The growth of a counter from `previous` to `current`; zero where the
/// counter went back.
pub open spec fn counter_growth(previous: u64, current: u64) -> nat {
    if current >= previous {
        (current - previous) as nat
    } else {
        0
    }
}

/// The baseline that a reading leaves behind.
pub open spec fn baseline_of(reading: InterfaceReading, now: Interval) -> Baseline {
    Baseline { received: reading.received, transmitted: reading.transmitted, timestamp: now }
}

/// Whether the interface of reading `i` is named by an earlier reading of the
/// same enumeration.
pub open spec fn seen_before(readings: Seq<InterfaceReading>, i: int) -> bool {
    exists|j: int| 0 <= j < i && (#[trigger] readings[j]).name@ == readings[i].name@
}

/// What is reported of the interface of reading `i`.
///
/// Its cumulative counters are those of the reading. Its rates are the growth
/// of the counters since the baseline, per second of the time since the
/// baseline. They are zero where the collector has no baseline of that name,
/// where no time has passed since the baseline, and where the same
/// enumeration names the interface a second time.
pub open spec fn interface_info(
    baselines: Map<Seq<char>, Baseline>,
    readings: Seq<InterfaceReading>,
    i: int,
    now: Interval,
) -> NetworkInterfaceInfo {
    let reading = readings[i];
    if !seen_before(readings, i) && baselines.contains_key(reading.name@) {
        let last = baselines[reading.name@];
        let elapsed = now.spec_saturating_sub(last.timestamp).nanos as nat;
        NetworkInterfaceInfo {
            name: reading.name,
            upload_speed: spec_rate(counter_growth(last.transmitted, reading.transmitted), elapsed),
            download_speed: spec_rate(counter_growth(last.received, reading.received), elapsed),
            total_uploaded: reading.transmitted,
            total_downloaded: reading.received,
        }
    } else {
        NetworkInterfaceInfo {
            name: reading.name,
            upload_speed: 0,
            download_speed: 0,
            total_uploaded: reading.transmitted,
            total_downloaded: reading.received,
        }
    }
}

/// What is reported of all interfaces of an enumeration, in its order.
pub open spec fn interfaces_of(
    baselines: Map<Seq<char>, Baseline>,
    readings: Seq<InterfaceReading>,
    now: Interval,
) -> Seq<NetworkInterfaceInfo> {
    Seq::new(readings.len(), |i: int| interface_info(baselines, readings, i, now))
}

/// The baselines after an enumeration: every interface that it names has the
/// counters of its last reading and the time of the enumeration; every other
/// baseline stays.
pub open spec fn baselines_after(
    baselines: Map<Seq<char>, Baseline>,
    readings: Seq<InterfaceReading>,
    now: Interval,
) -> Map<Seq<char>, Baseline>
    decreases readings.len(),
{
    if readings.len() == 0 {
        baselines
    } else {
        baselines_after(baselines, readings.drop_last(), now).insert(
            readings.last().name@,
            baseline_of(readings.last(), now),
        )
    }
}

/// The upload speeds of a list of interfaces.
pub open spec fn upload_speeds(interfaces: Seq<NetworkInterfaceInfo>) -> Seq<nat> {
    Seq::new(interfaces.len(), |i: int| interfaces[i].upload_speed as nat)
}

/// The download speeds of a list of interfaces.
pub open spec fn download_speeds(interfaces: Seq<NetworkInterfaceInfo>) -> Seq<nat> {
    Seq::new(interfaces.len(), |i: int| interfaces[i].download_speed as nat)
}

/// The bytes sent on each of a list of interfaces.
pub open spec fn uploaded_totals(interfaces: Seq<NetworkInterfaceInfo>) -> Seq<nat> {
    Seq::new(interfaces.len(), |i: int| interfaces[i].total_uploaded as nat)
}

/// The bytes received on each of a list of interfaces.
pub open spec fn downloaded_totals(interfaces: Seq<NetworkInterfaceInfo>) -> Seq<nat> {
    Seq::new(interfaces.len(), |i: int| interfaces[i].total_downloaded as nat)
}

/// Each of the four sums over a list of interfaces fits in 64 bits.
pub open spec fn totals_fit(interfaces: Seq<NetworkInterfaceInfo>) -> bool {
    &&& sum(upload_speeds(interfaces)) <= u64::MAX
    &&& sum(download_speeds(interfaces)) <= u64::MAX
    &&& sum(uploaded_totals(interfaces)) <= u64::MAX
    &&& sum(downloaded_totals(interfaces)) <= u64::MAX
}

impl NetworkInfo {
    /// The snapshot is that of the enumeration `readings`, read at the clock
    /// reading `now` by a collector with the baselines `baselines`: its
    /// interfaces one by one, and totals that match them.
    pub open spec fn is_snapshot_of(
        self,
        baselines: Map<Seq<char>, Baseline>,
        readings: Seq<InterfaceReading>,
        now: Interval,
    ) -> bool {
        &&& self.interfaces@ == interfaces_of(baselines, readings, now)
        &&& self.totals_match()
    }

    /// Each total is the sum of that figure over the interfaces listed.
    pub open spec fn totals_match(self) -> bool {
        &&& self.total_upload_speed == sum(upload_speeds(self.interfaces@))
        &&& self.total_download_speed == sum(download_speeds(self.interfaces@))
        &&& self.total_uploaded == sum(uploaded_totals(self.interfaces@))
        &&& self.total_downloaded == sum(downloaded_totals(self.interfaces@))
    }
}

/// A rate is the bytes per second rounded down: over a span that is not
/// empty, and short of `u64::MAX`, it is the largest whole number whose
/// product with the span is no more than the bytes that passed.
pub proof fn lemma_rate_rounds_down(bytes: nat, elapsed_nanos: nat)
    requires
        elapsed_nanos > 0,
    ensures
        spec_rate(bytes, elapsed_nanos) < u64::MAX ==> {
            &&& spec_rate(bytes, elapsed_nanos) * elapsed_nanos <= bytes * NANOS_PER_SEC
            &&& bytes * NANOS_PER_SEC < (spec_rate(bytes, elapsed_nanos) + 1) * elapsed_nanos
        },
{
    let scaled = (bytes * NANOS_PER_SEC) as int;
    let d = elapsed_nanos as int;
    assert((scaled / d) * d <= scaled < (scaled / d + 1) * d) by (nonlinear_arith)
        requires
            d > 0,
            scaled >= 0,
    ;
}

/// Over a span of whole seconds a rate is the bytes that passed, divided by
/// the seconds.
pub proof fn lemma_rate_over_whole_seconds(bytes: nat, secs: nat)
    requires
        secs > 0,
        bytes <= u64::MAX,
    ensures
        spec_rate(bytes, secs * (NANOS_PER_SEC as nat)) == bytes / secs,
{
    let s = secs as int;
    let b = bytes as int;
    assert((b * 1_000_000_000) / (s * 1_000_000_000) == b / s) by (nonlinear_arith)
        requires
            s > 0,
            b >= 0,
    ;
    assert(0 <= b / s <= b) by (nonlinear_arith)
        requires
            s > 0,
            b >= 0,
    ;
    assert(secs * (NANOS_PER_SEC as nat) == s * 1_000_000_000) by (nonlinear_arith)
        requires
            s == secs,
            NANOS_PER_SEC == 1_000_000_000,
    ;
    assert(bytes * NANOS_PER_SEC == b * 1_000_000_000) by (nonlinear_arith)
        requires
            b == bytes,
            NANOS_PER_SEC == 1_000_000_000,
    ;
}

/// Without a baseline no rate is reported: a collector that has seen no
/// interface yet reports both rates of every interface as zero.
pub proof fn lemma_first_sample_has_no_rates(readings: Seq<InterfaceReading>, now: Interval, i: int)
    requires
        0 <= i < readings.len(),
    ensures
        interfaces_of(Map::empty(), readings, now)[i].upload_speed == 0,
        interfaces_of(Map::empty(), readings, now)[i].download_speed == 0,
        interfaces_of(Map::empty(), readings, now)[i].total_uploaded == readings[i].transmitted,
        interfaces_of(Map::empty(), readings, now)[i].total_downloaded == readings[i].received,
{
}

/// With a baseline the rates are the growth of the counters over the time
/// since the baseline: for an interface that the enumeration names once, and
/// whose baseline is older than `now`.
pub proof fn lemma_rates_from_baseline(
    baselines: Map<Seq<char>, Baseline>,
    readings: Seq<InterfaceReading>,
    now: Interval,
    i: int,
)
    requires
        0 <= i < readings.len(),
        !seen_before(readings, i),
        baselines.contains_key(readings[i].name@),
        baselines[readings[i].name@].timestamp.nanos < now.nanos,
    ensures
        ({
            let last = baselines[readings[i].name@];
            let elapsed = (now.nanos - last.timestamp.nanos) as nat;
            let info = interfaces_of(baselines, readings, now)[i];
            &&& info.download_speed == spec_rate(
                counter_growth(last.received, readings[i].received),
                elapsed,
            )
            &&& info.upload_speed == spec_rate(
                counter_growth(last.transmitted, readings[i].transmitted),
                elapsed,
            )
        }),
{
}

/// After an enumeration, an interface that it names has the baseline of the
/// last reading that names it, and every other interface has the baseline it
/// had.
pub proof fn lemma_baselines_after(
    baselines: Map<Seq<char>, Baseline>,
    readings: Seq<InterfaceReading>,
    now: Interval,
    name: Seq<char>,
)
    ensures
        (forall|i: int| 0 <= i < readings.len() ==> (#[trigger] readings[i]).name@ != name) ==> {
            &&& baselines_after(baselines, readings, now).contains_key(name)
                == baselines.contains_key(name)
            &&& baselines.contains_key(name) ==> baselines_after(baselines, readings, now)[name]
                == baselines[name]
        },
        forall|i: int|
            0 <= i < readings.len() && (#[trigger] readings[i]).name@ == name && (forall|j: int|
                i < j < readings.len() ==> (#[trigger] readings[j]).name@ != name) ==> {
                &&& baselines_after(baselines, readings, now).contains_key(name)
                &&& baselines_after(baselines, readings, now)[name] == baseline_of(
                    readings[i],
                    now,
                )
            },
    decreases readings.len(),
{
    if readings.len() > 0 {
        let rest = readings.drop_last();
        lemma_baselines_after(baselines, rest, now, name);
        let n = readings.len() - 1;
        assert forall|i: int|
            0 <= i < readings.len() && (#[trigger] readings[i]).name@ == name && (forall|j: int|
                i < j < readings.len() ==> (#[trigger] readings[j]).name@ != name) implies {
            &&& baselines_after(baselines, readings, now).contains_key(name)
            &&& baselines_after(baselines, readings, now)[name] == baseline_of(readings[i], now)
        } by {
            if i < n {
                assert(rest[i].name@ == name);
            }
        }
    }
}

/// Bytes per second, given the bytes that passed in the span `elapsed`.
pub fn rate(bytes: u64, elapsed: Interval) -> (r: u64)
    ensures
        r == spec_rate(bytes as nat, elapsed.nanos as nat),
{
    if elapsed.nanos == 0 {
        0
    } else {
        let scaled: u128 = (bytes as u128) * NANOS_PER_SEC;
        let quotient: u128 = scaled / elapsed.nanos;
        if quotient > u64::MAX as u128 {
            u64::MAX
        } else {
            quotient as u64
        }
    }
}

/// The baseline of one interface name.
#[derive(Debug)]
struct Entry {
    name: String,
    baseline: Baseline,
}

/// No two entries have the same name.
spec fn distinct_names(entries: Seq<Entry>) -> bool {
    forall|i: int, j: int|
        0 <= i < j < entries.len() ==> (#[trigger] entries[i]).name@ != (#[trigger] entries[j]).name@
}

/// The baselines that a list of entries holds, by name.
spec fn entries_map(entries: Seq<Entry>) -> Map<Seq<char>, Baseline>
    decreases entries.len(),
{
    if entries.len() == 0 {
        Map::empty()
    } else {
        entries_map(entries.drop_last()).insert(entries.last().name@, entries.last().baseline)
    }
}

/// A name has a baseline exactly where an entry has that name.
proof fn lemma_entries_map_names(entries: Seq<Entry>, name: Seq<char>)
    ensures
        entries_map(entries).contains_key(name) <==> exists|i: int|
            0 <= i < entries.len() && (#[trigger] entries[i]).name@ == name,
    decreases entries.len(),
{
    if entries.len() > 0 {
        let rest = entries.drop_last();
        lemma_entries_map_names(rest, name);
        if exists|i: int| 0 <= i < entries.len() && (#[trigger] entries[i]).name@ == name {
            let i = choose|i: int| 0 <= i < entries.len() && (#[trigger] entries[i]).name@ == name;
            if i < entries.len() - 1 {
                assert(rest[i].name@ == name);
            }
        }
    }
}

/// Where no name occurs twice, the baseline of an entry's name is that
/// entry's.
proof fn lemma_entries_map_at(entries: Seq<Entry>, i: int)
    requires
        distinct_names(entries),
        0 <= i < entries.len(),
    ensures
        entries_map(entries).contains_key(entries[i].name@),
        entries_map(entries)[entries[i].name@] == entries[i].baseline,
    decreases entries.len(),
{
    let rest = entries.drop_last();
    if i < entries.len() - 1 {
        lemma_entries_map_at(rest, i);
    }
}

/// Replacing the baseline of entry `i` replaces the baseline of its name.
proof fn lemma_entries_map_update(entries: Seq<Entry>, i: int, entry: Entry)
    requires
        distinct_names(entries),
        0 <= i < entries.len(),
        entry.name@ == entries[i].name@,
    ensures
        distinct_names(entries.update(i, entry)),
        entries_map(entries.update(i, entry)) == entries_map(entries).insert(
            entry.name@,
            entry.baseline,
        ),
    decreases entries.len(),
{
    let updated = entries.update(i, entry);
    let rest = entries.drop_last();
    if i == entries.len() - 1 {
        assert(updated.drop_last() == rest);
    } else {
        lemma_entries_map_update(rest, i, entry);
        assert(updated.drop_last() == rest.update(i, entry));
    }
}

/// Adding an entry with a new name adds the baseline of that name.
proof fn lemma_entries_map_push(entries: Seq<Entry>, entry: Entry)
    requires
        distinct_names(entries),
        forall|i: int| 0 <= i < entries.len() ==> (#[trigger] entries[i]).name@ != entry.name@,
    ensures
        distinct_names(entries.push(entry)),
        entries_map(entries.push(entry)) == entries_map(entries).insert(
            entry.name@,
            entry.baseline,
        ),
{
    let pushed = entries.push(entry);
    assert(pushed.drop_last() == entries);
}

/// The index of the entry named `name`, if there is one.
fn find(entries: &Vec<Entry>, name: &String) -> (found: Option<usize>)
    ensures
        match found {
            Some(i) => i < entries.len() && entries[i as int].name@ == name@,
            None => forall|i: int| 0 <= i < entries.len() ==> (#[trigger] entries[i]).name@ != name@,
        },
{
    let mut i: usize = 0;
    while i < entries.len()
        invariant
            i <= entries.len(),
            forall|k: int| 0 <= k < i ==> (#[trigger] entries[k]).name@ != name@,
        decreases entries.len() - i,
    {
        if entries[i].name == *name {
            return Some(i);
        }
        i += 1;
    }
    None
}

/// Whether an earlier reading names the interface of reading `i`.
fn named_before(readings: &Vec<InterfaceReading>, i: usize) -> (seen: bool)
    requires
        i < readings.len(),
    ensures
        seen == seen_before(readings@, i as int),
{
    let mut j: usize = 0;
    while j < i
        invariant
            j <= i < readings.len(),
            forall|k: int| 0 <= k < j ==> (#[trigger] readings[k]).name@ != readings[i as int].name@,
        decreases i - j,
    {
        if readings[j].name == readings[i].name {
            return true;
        }
        j += 1;
    }
    false
}

/// Sets the baseline of `name`, adding an entry where there is none.
fn upsert(entries: &mut Vec<Entry>, name: String, baseline: Baseline)
    requires
        distinct_names(old(entries)@),
    ensures
        distinct_names(final(entries)@),
        entries_map(final(entries)@) == entries_map(old(entries)@).insert(name@, baseline),
{
    let found = find(entries, &name);
    let entry = Entry { name, baseline };
    match found {
        Some(i) => {
            proof {
                lemma_entries_map_update(entries@, i as int, entry);
            }
            entries.set(i, entry);
        },
        None => {
            proof {
                lemma_entries_map_push(entries@, entry);
            }
            entries.push(entry);
        },
    }
}

/// Adds up the four figures over a list of interfaces. `None` where one of
/// the sums does not fit in 64 bits.
fn total_up(interfaces: &Vec<NetworkInterfaceInfo>) -> (totals: Option<(u64, u64, u64, u64)>)
    ensures
        match totals {
            Some(t) => {
                &&& totals_fit(interfaces@)
                &&& t.0 == sum(upload_speeds(interfaces@))
                &&& t.1 == sum(download_speeds(interfaces@))
                &&& t.2 == sum(uploaded_totals(interfaces@))
                &&& t.3 == sum(downloaded_totals(interfaces@))
            },
            None => !totals_fit(interfaces@),
        },
{
    let mut upload_speed: u64 = 0;
    let mut download_speed: u64 = 0;
    let mut uploaded: u64 = 0;
    let mut downloaded: u64 = 0;
    let mut i: usize = 0;
    while i < interfaces.len()
        invariant
            i <= interfaces.len(),
            upload_speed == prefix_sum(upload_speeds(interfaces@), i as nat),
            download_speed == prefix_sum(download_speeds(interfaces@), i as nat),
            uploaded == prefix_sum(uploaded_totals(interfaces@), i as nat),
            downloaded == prefix_sum(downloaded_totals(interfaces@), i as nat),
        decreases interfaces.len() - i,
    {
        let interface = &interfaces[i];
        proof {
            let n = interfaces@.len();
            lemma_prefix_sum_monotone(upload_speeds(interfaces@), (i + 1) as nat, n);
            lemma_prefix_sum_monotone(download_speeds(interfaces@), (i + 1) as nat, n);
            lemma_prefix_sum_monotone(uploaded_totals(interfaces@), (i + 1) as nat, n);
            lemma_prefix_sum_monotone(downloaded_totals(interfaces@), (i + 1) as nat, n);
        }
        let a = upload_speed.checked_add(interface.upload_speed);
        let b = download_speed.checked_add(interface.download_speed);
        let c = uploaded.checked_add(interface.total_uploaded);
        let d = downloaded.checked_add(interface.total_downloaded);
        match (a, b, c, d) {
            (Some(a), Some(b), Some(c), Some(d)) => {
                upload_speed = a;
                download_speed = b;
                uploaded = c;
                downloaded = d;
            },
            _ => {
                return None;
            },
        }
        i += 1;
    }
    Some((upload_speed, download_speed, uploaded, downloaded))
}

/// Derives the rates of the network interfaces from their cumulative
/// counters.
#[derive(Debug)]
pub struct NetworkCollector {
    entries: Vec<Entry>,
}

impl View for NetworkCollector {
    type V = Map<Seq<char>, Baseline>;

    /// The baseline of every interface name that the collector has seen.
    closed spec fn view(&self) -> Map<Seq<char>, Baseline> {
        entries_map(self.entries@)
    }
}

impl NetworkCollector {
    #[verifier::type_invariant]
    spec fn no_name_twice(self) -> bool {
        distinct_names(self.entries@)
    }

    /// A collector that has seen no interface yet.
    pub fn new() -> (r: Self)
        ensures
            r@ == Map::<Seq<char>, Baseline>::empty(),
    {
        NetworkCollector { entries: Vec::new() }
    }

    /// What is reported of the interfaces of `readings`, against the
    /// baselines as they stand.
    fn measure(&self, readings: &Vec<InterfaceReading>, now: Interval) -> (interfaces: Vec<
        NetworkInterfaceInfo,
    >)
        ensures
            interfaces@ == interfaces_of(self@, readings@, now),
    {
        proof {
            use_type_invariant(self);
        }
        let mut interfaces: Vec<NetworkInterfaceInfo> = Vec::new();
        let mut i: usize = 0;
        while i < readings.len()
            invariant
                i <= readings.len(),
                distinct_names(self.entries@),
                interfaces@.len() == i,
                forall|k: int|
                    0 <= k < i ==> #[trigger] interfaces@[k] == interface_info(
                        self@,
                        readings@,
                        k,
                        now,
                    ),
            decreases readings.len() - i,
        {
            let reading = &readings[i];
            let found = if named_before(readings, i) {
                None
            } else {
                find(&self.entries, &reading.name)
            };
            proof {
                lemma_entries_map_names(self.entries@, reading.name@);
            }
            let interface = match found {
                Some(k) => {
                    proof {
                        lemma_entries_map_at(self.entries@, k as int);
                    }
                    let last = self.entries[k].baseline;
                    let elapsed = now.saturating_sub(last.timestamp);
                    NetworkInterfaceInfo {
                        name: reading.name.clone(),
                        upload_speed: rate(
                            reading.transmitted.saturating_sub(last.transmitted),
                            elapsed,
                        ),
                        download_speed: rate(
                            reading.received.saturating_sub(last.received),
                            elapsed,
                        ),
                        total_uploaded: reading.transmitted,
                        total_downloaded: reading.received,
                    }
                },
                None => NetworkInterfaceInfo {
                    name: reading.name.clone(),
                    upload_speed: 0,
                    download_speed: 0,
                    total_uploaded: reading.transmitted,
                    total_downloaded: reading.received,
                },
            };
            interfaces.push(interface);
            i += 1;
        }
        interfaces
    }

    /// Makes the counters of `readings` the baselines of their interfaces.
    fn remember(&mut self, readings: &Vec<InterfaceReading>, now: Interval)
        ensures
            final(self)@ == baselines_after(old(self)@, readings@, now),
    {
        proof {
            use_type_invariant(&*self);
        }
        let ghost before = self@;
        let mut entries: Vec<Entry> = Vec::new();
        core::mem::swap(&mut entries, &mut self.entries);
        let mut i: usize = 0;
        while i < readings.len()
            invariant
                i <= readings.len(),
                distinct_names(entries@),
                entries_map(entries@) == baselines_after(before, readings@.take(i as int), now),
            decreases readings.len() - i,
        {
            proof {
                assert(readings@.take(i + 1).drop_last() == readings@.take(i as int));
            }
            let reading = &readings[i];
            let baseline = Baseline {
                received: reading.received,
                transmitted: reading.transmitted,
                timestamp: now,
            };
            upsert(&mut entries, reading.name.clone(), baseline);
            i += 1;
        }
        assert(readings@.take(readings@.len() as int) == readings@);
        self.entries = entries;
    }

    /// Takes a sample: reports the interfaces of `readings`, read at the clock
    /// reading `now`, and makes their counters the new baselines.
    ///
    /// `now` is a reading of a monotonic clock, as the time since an origin
    /// that is the same for all calls on one collector.
    pub fn collect(&mut self, readings: &Vec<InterfaceReading>, now: Interval) -> (info:
        NetworkInfo)
        requires
            totals_fit(interfaces_of(old(self)@, readings@, now)),
        ensures
            info.is_snapshot_of(old(self)@, readings@, now),
            final(self)@ == baselines_after(old(self)@, readings@, now),
    {
        let interfaces = self.measure(readings, now);
        let totals = total_up(&interfaces).unwrap();
        self.remember(readings, now);
        NetworkInfo {
            interfaces,
            total_upload_speed: totals.0,
            total_download_speed: totals.1,
            total_uploaded: totals.2,
            total_downloaded: totals.3,
        }
    }

    /// Takes a sample as `collect` does, where every total fits in 64 bits.
    /// Where one does not, returns `None` and leaves the baselines as they
    /// are.
    pub fn try_collect(&mut self, readings: &Vec<InterfaceReading>, now: Interval) -> (info:
        Option<NetworkInfo>)
        ensures
            info is Some <==> totals_fit(interfaces_of(old(self)@, readings@, now)),
            info matches Some(i) ==> {
                &&& i.is_snapshot_of(old(self)@, readings@, now)
                &&& final(self)@ == baselines_after(old(self)@, readings@, now)
            },
            info is None ==> final(self)@ == old(self)@,
    {
        let interfaces = self.measure(readings, now);
        match total_up(&interfaces) {
            Some(totals) => {
                self.remember(readings, now);
                Some(
                    NetworkInfo {
                        interfaces,
                        total_upload_speed: totals.0,
                        total_download_speed: totals.1,
                        total_uploaded: totals.2,
                        total_downloaded: totals.3,
                    },
                )
            },
            None => None,
        }
    }
}

impl Default for NetworkCollector {
    fn default() -> (r: Self)
        ensures
            r@ == Map::<Seq<char>, Baseline>::empty(),
    {
        NetworkCollector::new()
    }
}

} // verus!
