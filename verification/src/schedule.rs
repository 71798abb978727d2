//! When each kind of sample is due.
//!
//! One worker serves four kinds of sample, each on its own cadence. The
//! worker wakes once per base tick. Each kind of sample has a countdown: a
//! kind whose countdown has run out is due, is sampled, and has its countdown
//! set back to its interval; after every wake-up all countdowns go down by
//! one base tick and stop at zero. A [`Schedule`] holds the countdowns and
//! makes these decisions; the worker sleeps and samples.

use crate::interval::Interval;
use crate::types::MonitorConfig;
use vstd::prelude::*;

verus! {

/// Length of the base tick in nanoseconds: 100 ms.
pub const BASE_TICK_NANOS: u128 = 100_000_000;

/// The time that remains on a countdown after the worker has slept one base
/// tick.
pub open spec fn countdown_after_tick(countdown: Interval) -> Interval {
    countdown.spec_saturating_sub(Interval { nanos: BASE_TICK_NANOS })
}

/// The time that remains on a countdown after the worker has slept `ticks`
/// base ticks in a row.
pub open spec fn countdown_after_ticks(countdown: Interval, ticks: nat) -> Interval
    decreases ticks,
{
    if ticks == 0 {
        countdown
    } else {
        countdown_after_tick(countdown_after_ticks(countdown, (ticks - 1) as nat))
    }
}

/// A countdown after the worker has looked at it: set back to `interval`
/// where it had run out, left alone where it had not.
pub open spec fn countdown_after_poll(countdown: Interval, interval: Interval) -> Interval {
    if countdown.nanos == 0 {
        interval
    } else {
        countdown
    }
}

/// The number of base ticks after which a countdown of `nanos` nanoseconds
/// has run out: `nanos` divided by the base tick, rounded up.
pub open spec fn ticks_to_run_out(nanos: nat) -> nat {
    ((nanos + BASE_TICK_NANOS - 1) / (BASE_TICK_NANOS as int)) as nat
}

/// After `ticks` base ticks a countdown stands at its start less the time
/// slept, and at zero where more time was slept than it held.
pub proof fn lemma_countdown_after_ticks(countdown: Interval, ticks: nat)
    ensures
        countdown_after_ticks(countdown, ticks).nanos == if countdown.nanos >= ticks
            * BASE_TICK_NANOS {
            countdown.nanos - ticks * BASE_TICK_NANOS
        } else {
            0
        },
    decreases ticks,
{
    if ticks > 0 {
        lemma_countdown_after_ticks(countdown, (ticks - 1) as nat);
        assert(ticks * BASE_TICK_NANOS == (ticks - 1) * BASE_TICK_NANOS + BASE_TICK_NANOS)
            by (nonlinear_arith);
    }
}

/// A countdown has run out after `ticks` base ticks exactly where the time
/// slept is no shorter than the countdown.
pub proof fn lemma_run_out_iff_slept_enough(countdown: Interval, ticks: nat)
    ensures
        countdown_after_ticks(countdown, ticks).nanos == 0 <==> ticks * BASE_TICK_NANOS
            >= countdown.nanos,
{
    lemma_countdown_after_ticks(countdown, ticks);
}

/// A kind of sample that was taken is due again after its interval rounded up
/// to whole base ticks, and not before: it is never early, and late by less
/// than one base tick.
pub proof fn lemma_period(interval: Interval, ticks: nat)
    ensures
        countdown_after_ticks(interval, ticks).nanos == 0 <==> ticks >= ticks_to_run_out(
            interval.nanos as nat,
        ),
        interval.nanos <= ticks_to_run_out(interval.nanos as nat) * BASE_TICK_NANOS
            < interval.nanos + BASE_TICK_NANOS,
{
    lemma_run_out_iff_slept_enough(interval, ticks);
}

/// Which kinds of sample are due.
#[derive(Debug, Clone, Copy, PartialEq, Eq, Structural)]
pub struct Due {
    /// The processor is due.
    pub cpu: bool,
    /// The memory is due.
    pub memory: bool,
    /// The volumes are due.
    pub disk: bool,
    /// The network interfaces are due.
    pub network: bool,
}

/// The countdowns of the four kinds of sample.
#[derive(Debug, Clone, Copy, PartialEq, Eq, Structural)]
pub struct Schedule {
    /// The interval of each kind of sample.
    pub config: MonitorConfig,
    /// Time until the processor is due.
    pub cpu_countdown: Interval,
    /// Time until the memory is due.
    pub memory_countdown: Interval,
    /// Time until the volumes are due.
    pub disk_countdown: Interval,
    /// Time until the network interfaces are due.
    pub network_countdown: Interval,
}

impl Schedule {
    /// The schedule of a worker that has not sampled yet: every kind of
    /// sample is due.
    pub open spec fn spec_new(config: MonitorConfig) -> Schedule {
        Schedule {
            config,
            cpu_countdown: Interval { nanos: 0 },
            memory_countdown: Interval { nanos: 0 },
            disk_countdown: Interval { nanos: 0 },
            network_countdown: Interval { nanos: 0 },
        }
    }

    /// The kinds of sample whose countdown has run out.
    pub open spec fn due(self) -> Due {
        Due {
            cpu: self.cpu_countdown.nanos == 0,
            memory: self.memory_countdown.nanos == 0,
            disk: self.disk_countdown.nanos == 0,
            network: self.network_countdown.nanos == 0,
        }
    }

    /// The schedule after the worker has taken every sample that was due.
    pub open spec fn after_poll(self) -> Schedule {
        Schedule {
            config: self.config,
            cpu_countdown: countdown_after_poll(self.cpu_countdown, self.config.cpu_interval),
            memory_countdown: countdown_after_poll(
                self.memory_countdown,
                self.config.memory_interval,
            ),
            disk_countdown: countdown_after_poll(self.disk_countdown, self.config.disk_interval),
            network_countdown: countdown_after_poll(
                self.network_countdown,
                self.config.network_interval,
            ),
        }
    }

    /// The schedule after the worker has slept one base tick.
    pub open spec fn after_tick(self) -> Schedule {
        Schedule {
            config: self.config,
            cpu_countdown: countdown_after_tick(self.cpu_countdown),
            memory_countdown: countdown_after_tick(self.memory_countdown),
            disk_countdown: countdown_after_tick(self.disk_countdown),
            network_countdown: countdown_after_tick(self.network_countdown),
        }
    }

    /// The schedule after the worker has slept `ticks` base ticks in a row
    /// without looking at it.
    pub open spec fn after_ticks(self, ticks: nat) -> Schedule {
        Schedule {
            config: self.config,
            cpu_countdown: countdown_after_ticks(self.cpu_countdown, ticks),
            memory_countdown: countdown_after_ticks(self.memory_countdown, ticks),
            disk_countdown: countdown_after_ticks(self.disk_countdown, ticks),
            network_countdown: countdown_after_ticks(self.network_countdown, ticks),
        }
    }

    /// Sleeping `ticks` base ticks and one more is sleeping `ticks` base ticks
    /// and one after them.
    pub proof fn lemma_after_ticks_step(self, ticks: nat)
        ensures
            self.after_ticks(ticks + 1) == self.after_ticks(ticks).after_tick(),
            self.after_ticks(0) == self,
    {
    }

    /// The four cadences do not disturb each other. A kind of sample that was
    /// taken at one look is due again after its own interval, rounded up to
    /// whole base ticks, whatever the other intervals are: after `ticks` base
    /// ticks it is due exactly where `ticks` is no less than that.
    pub proof fn lemma_cadence(self, ticks: nat)
        ensures
            self.due().cpu ==> (self.after_poll().after_ticks(ticks).due().cpu <==> ticks
                >= ticks_to_run_out(self.config.cpu_interval.nanos as nat)),
            self.due().memory ==> (self.after_poll().after_ticks(ticks).due().memory <==> ticks
                >= ticks_to_run_out(self.config.memory_interval.nanos as nat)),
            self.due().disk ==> (self.after_poll().after_ticks(ticks).due().disk <==> ticks
                >= ticks_to_run_out(self.config.disk_interval.nanos as nat)),
            self.due().network ==> (self.after_poll().after_ticks(ticks).due().network <==> ticks
                >= ticks_to_run_out(self.config.network_interval.nanos as nat)),
    {
        lemma_period(self.config.cpu_interval, ticks);
        lemma_period(self.config.memory_interval, ticks);
        lemma_period(self.config.disk_interval, ticks);
        lemma_period(self.config.network_interval, ticks);
    }

    /// The base tick: the time that the worker sleeps between two looks at
    /// the schedule.
    pub fn base_tick() -> (r: Interval)
        ensures
            r.nanos == BASE_TICK_NANOS,
    {
        Interval::from_nanos(BASE_TICK_NANOS)
    }

    /// The time to wait between creating the processor's collector and its
    /// first sample, so that the sample spans a measurable time: one base
    /// tick.
    pub fn settle_delay() -> (r: Interval)
        ensures
            r.nanos == BASE_TICK_NANOS,
    {
        Interval::from_nanos(BASE_TICK_NANOS)
    }

    /// The schedule of a worker that starts with `config`.
    pub fn new(config: MonitorConfig) -> (s: Self)
        ensures
            s == Self::spec_new(config),
            s.due() == (Due { cpu: true, memory: true, disk: true, network: true }),
    {
        Schedule {
            config,
            cpu_countdown: Interval::zero(),
            memory_countdown: Interval::zero(),
            disk_countdown: Interval::zero(),
            network_countdown: Interval::zero(),
        }
    }

    /// Says which kinds of sample are due now, and sets the countdown of each
    /// of them back to its interval. The caller takes those samples.
    pub fn poll(&mut self) -> (due: Due)
        ensures
            due == old(self).due(),
            *final(self) == old(self).after_poll(),
    {
        let due = Due {
            cpu: self.cpu_countdown.is_zero(),
            memory: self.memory_countdown.is_zero(),
            disk: self.disk_countdown.is_zero(),
            network: self.network_countdown.is_zero(),
        };
        if due.cpu {
            self.cpu_countdown = self.config.cpu_interval;
        }
        if due.memory {
            self.memory_countdown = self.config.memory_interval;
        }
        if due.disk {
            self.disk_countdown = self.config.disk_interval;
        }
        if due.network {
            self.network_countdown = self.config.network_interval;
        }
        due
    }

    /// Takes one base tick off every countdown, stopping at zero. The caller
    /// has slept one base tick.
    pub fn tick(&mut self)
        ensures
            *final(self) == old(self).after_tick(),
    {
        let step = Self::base_tick();
        self.cpu_countdown = self.cpu_countdown.saturating_sub(step);
        self.memory_countdown = self.memory_countdown.saturating_sub(step);
        self.disk_countdown = self.disk_countdown.saturating_sub(step);
        self.network_countdown = self.network_countdown.saturating_sub(step);
    }
}

} // verus!
