use vstd::prelude::*;
use crate::random::{roll, scale, scaled, ROLL_SCALE};
use crate::types::SystemMetrics;

verus! {

/// Simulated charge of a full battery, in hundredths of a percent.
pub const BATTERY_FULL: u32 = 10000;

/// Charge drained by one sample, in hundredths of a percent.
pub const BATTERY_STEP: u32 = 5;

/// Charge below which the simulated battery is recharged to full.
pub const BATTERY_FLOOR: u32 = 1000;

/// Lowest simulated temperature, in hundredths of a degree.
pub const TEMPERATURE_BASE: u32 = 4500;

/// Width of the simulated temperature range, in hundredths of a degree.
pub const TEMPERATURE_SPAN: u32 = 1000;

/// One reading of the host statistics provider.
#[derive(Debug, Clone, Copy, PartialEq, Eq)]
pub struct HostStats {
    /// Global CPU usage, in hundredths of a percent.
    pub cpu_percent: u32,
    /// Memory in use, in bytes.
    pub used_memory: u64,
    /// Memory installed, in bytes.
    pub total_memory: u64,
}

/// Memory use in hundredths of a percent of the total, truncated; zero when
/// the provider reports no memory at all, and at most full when it reports
/// more in use than installed.
pub open spec fn memory_percent_of(used: nat, total: nat) -> nat {
    if total == 0 {
        0
    } else if used > total {
        10000
    } else {
        used * 10000 / total
    }
}

/// Computes `memory_percent_of` on a host reading.
pub fn memory_percent(used: u64, total: u64) -> (r: u32)
    ensures
        r as nat == memory_percent_of(used as nat, total as nat),
        r <= 10000,
{
    if total == 0 {
        0
    } else if used > total {
        10000
    } else {
        let p: u128 = used as u128 * 10000;
        let q: u128 = p / total as u128;
        assert(q <= 10000) by (nonlinear_arith)
            requires
                used <= total,
                total > 0,
                p == used * 10000,
                q == p / (total as u128),
        ;
        q as u32
    }
}

/// The charge after one sample drains the battery from `b`.
pub open spec fn battery_step(b: nat) -> nat {
    if b < BATTERY_FLOOR + BATTERY_STEP {
        BATTERY_FULL as nat
    } else {
        (b - BATTERY_STEP) as nat
    }
}

/// The charge after `n` samples from a full battery.
pub open spec fn battery_after(n: nat) -> nat
    decreases n,
{
    if n == 0 {
        BATTERY_FULL as nat
    } else {
        battery_step(battery_after((n - 1) as nat))
    }
}

/// Number of samples in one discharge cycle.
pub open spec fn battery_period() -> nat {
    ((BATTERY_FULL - BATTERY_FLOOR) as nat) / (BATTERY_STEP as nat) + 1
}

/// Samples host load and simulates the battery and temperature.
pub struct SystemCollector {
    battery_simulation: u32,
}

impl SystemCollector {
    /// The simulated charge, in hundredths of a percent.
    pub closed spec fn battery(&self) -> nat {
        self.battery_simulation as nat
    }

    pub open spec fn wf(&self) -> bool {
        BATTERY_FLOOR <= self.battery() <= BATTERY_FULL
    }

    /// A collector with a full battery.
    pub fn new() -> (c: Self)
        ensures
            c.wf(),
            c.battery() == BATTERY_FULL,
    {
        SystemCollector { battery_simulation: BATTERY_FULL }
    }

    /// The simulated charge, in hundredths of a percent.
    pub fn battery_level(&self) -> (r: u32)
        ensures
            r as nat == self.battery(),
    {
        self.battery_simulation
    }

    /// Drains the battery by one step and builds the metrics from a host
    /// reading and the roll that chooses the temperature.
    pub fn sample(&mut self, host: HostStats, temperature_roll: u32) -> (m: SystemMetrics)
        requires
            old(self).wf(),
            temperature_roll < ROLL_SCALE,
        ensures
            final(self).wf(),
            final(self).battery() == battery_step(old(self).battery()),
            m.cpu_percent == host.cpu_percent,
            m.memory_percent as nat == memory_percent_of(
                host.used_memory as nat,
                host.total_memory as nat,
            ),
            m.battery_percent as nat == final(self).battery(),
            m.temperature as nat == TEMPERATURE_BASE + scaled(
                temperature_roll as nat,
                TEMPERATURE_SPAN as nat,
            ),
    {
        if self.battery_simulation < BATTERY_FLOOR + BATTERY_STEP {
            self.battery_simulation = BATTERY_FULL;
        } else {
            self.battery_simulation = self.battery_simulation - BATTERY_STEP;
        }
        SystemMetrics {
            cpu_percent: host.cpu_percent,
            memory_percent: memory_percent(host.used_memory, host.total_memory),
            battery_percent: self.battery_simulation,
            temperature: TEMPERATURE_BASE + scale(temperature_roll, TEMPERATURE_SPAN),
        }
    }

    /// Samples with a temperature drawn uniformly from its range.
    pub fn collect(&mut self, host: HostStats) -> (m: SystemMetrics)
        requires
            old(self).wf(),
        ensures
            final(self).wf(),
            final(self).battery() == battery_step(old(self).battery()),
            m.cpu_percent == host.cpu_percent,
            m.memory_percent as nat == memory_percent_of(
                host.used_memory as nat,
                host.total_memory as nat,
            ),
            m.battery_percent as nat == final(self).battery(),
            TEMPERATURE_BASE <= m.temperature < TEMPERATURE_BASE + TEMPERATURE_SPAN,
    {
        let r = roll();
        self.sample(host, r)
    }
}

/// The battery runs down one step per sample from full and is recharged to
/// full on the sample that would take it below the floor: after `n` samples
/// its charge is full less one step for each sample since the last recharge,
/// it never leaves `[BATTERY_FLOOR, BATTERY_FULL]`, and it is full exactly at
/// the multiples of the cycle length.
pub proof fn lemma_battery_cycle(n: nat)
    ensures
        battery_after(n) == BATTERY_FULL - BATTERY_STEP * (n % battery_period()),
        BATTERY_FLOOR <= battery_after(n) <= BATTERY_FULL,
        battery_after(n) == BATTERY_FULL <==> n % battery_period() == 0,
    decreases n,
{
    assert(battery_period() == 1801);
    if n > 0 {
        lemma_battery_cycle((n - 1) as nat);
        let k = ((n - 1) as nat) % 1801;
        if k == 1800 {
            assert(n % 1801 == 0) by {
                vstd::arithmetic::div_mod::lemma_add_mod_noop((n - 1) as int, 1, 1801);
            }
        } else {
            assert(n % 1801 == k + 1) by {
                vstd::arithmetic::div_mod::lemma_add_mod_noop((n - 1) as int, 1, 1801);
                vstd::arithmetic::div_mod::lemma_small_mod((k + 1) as nat, 1801);
            }
        }
    }
}

} // verus!
