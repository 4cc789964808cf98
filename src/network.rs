use vstd::prelude::*;
use crate::random::{roll, scale, scaled, ROLL_SCALE};
use crate::types::NetworkMetrics;

verus! {

/// Latency of a quiet link, in hundredths of a millisecond.
pub const BASELINE_LATENCY: u32 = 1000;

/// Rolls below this (out of `ROLL_SCALE`) give a latency spike: 5%.
pub const SPIKE_CHANCE: u32 = 500;

/// Width of the extra latency of a spike, in hundredths of a millisecond.
pub const SPIKE_SPAN: u32 = 5000;

/// Width of the extra latency of a normal sample.
pub const JITTER_SPAN: u32 = 500;

/// Rolls below this (out of `ROLL_SCALE`) give a burst of loss: 2%.
pub const BURST_LOSS_CHANCE: u32 = 200;

/// Width of the packet loss of a burst, in hundredths of a percent.
pub const BURST_LOSS_SPAN: u32 = 500;

/// Width of the packet loss of a normal sample.
pub const NORMAL_LOSS_SPAN: u32 = 50;

/// Weakest simulated signal, in hundredths of a dBm.
pub const SIGNAL_FLOOR: i32 = -7000;

/// Width of the simulated signal range.
pub const SIGNAL_SPAN: u32 = 3000;

/// Lowest simulated bandwidth, in hundredths of a Mbps.
pub const BANDWIDTH_FLOOR: u32 = 10000;

/// Width of the simulated bandwidth range.
pub const BANDWIDTH_SPAN: u32 = 5000;

/// The six unit rolls that one network sample consumes.
#[derive(Debug, Clone, Copy, PartialEq, Eq)]
pub struct NetworkRolls {
    /// Chooses between a latency spike and normal jitter.
    pub spike: u32,
    /// Places the extra latency within the chosen range.
    pub latency: u32,
    /// Chooses between a burst of loss and normal loss.
    pub burst: u32,
    /// Places the packet loss within the chosen range.
    pub loss: u32,
    pub signal: u32,
    pub bandwidth: u32,
}

impl NetworkRolls {
    pub open spec fn wf(&self) -> bool {
        &&& self.spike < ROLL_SCALE
        &&& self.latency < ROLL_SCALE
        &&& self.burst < ROLL_SCALE
        &&& self.loss < ROLL_SCALE
        &&& self.signal < ROLL_SCALE
        &&& self.bandwidth < ROLL_SCALE
    }
}

/// Width of the extra latency that `spike_roll` selects.
pub open spec fn latency_span(spike_roll: nat) -> nat {
    if spike_roll < SPIKE_CHANCE {
        SPIKE_SPAN as nat
    } else {
        JITTER_SPAN as nat
    }
}

/// Width of the packet loss that `burst_roll` selects.
pub open spec fn loss_span(burst_roll: nat) -> nat {
    if burst_roll < BURST_LOSS_CHANCE {
        BURST_LOSS_SPAN as nat
    } else {
        NORMAL_LOSS_SPAN as nat
    }
}

/// `m` is the sample that `r` gives on a link with latency `baseline`.
pub open spec fn network_matches(m: NetworkMetrics, baseline: nat, r: NetworkRolls) -> bool {
    &&& m.latency_ms as nat == baseline + scaled(r.latency as nat, latency_span(r.spike as nat))
    &&& m.packet_loss_percent as nat == scaled(r.loss as nat, loss_span(r.burst as nat))
    &&& m.signal_strength_dbm == Some((SIGNAL_FLOOR + scaled(r.signal as nat, SIGNAL_SPAN as nat)) as i32)
    &&& m.bandwidth_mbps as nat == BANDWIDTH_FLOOR + scaled(r.bandwidth as nat, BANDWIDTH_SPAN as nat)
    &&& m.interface_type@ == "wifi"@
}

/// Simulates link quality around a fixed baseline latency.
pub struct NetworkCollector {
    baseline_latency: u32,
}

impl NetworkCollector {
    /// The latency of a quiet link, in hundredths of a millisecond.
    pub closed spec fn baseline(&self) -> nat {
        self.baseline_latency as nat
    }

    pub open spec fn wf(&self) -> bool {
        self.baseline() == BASELINE_LATENCY
    }

    pub fn new() -> (c: Self)
        ensures
            c.wf(),
    {
        NetworkCollector { baseline_latency: BASELINE_LATENCY }
    }

    /// Builds the sample that the given rolls select.
    pub fn sample(&self, r: NetworkRolls) -> (m: NetworkMetrics)
        requires
            self.wf(),
            r.wf(),
        ensures
            network_matches(m, self.baseline(), r),
    {
        let latency_span = if r.spike < SPIKE_CHANCE {
            SPIKE_SPAN
        } else {
            JITTER_SPAN
        };
        let loss_span = if r.burst < BURST_LOSS_CHANCE {
            BURST_LOSS_SPAN
        } else {
            NORMAL_LOSS_SPAN
        };
        let signal_offset = scale(r.signal, SIGNAL_SPAN);
        NetworkMetrics {
            latency_ms: self.baseline_latency + scale(r.latency, latency_span),
            packet_loss_percent: scale(r.loss, loss_span),
            signal_strength_dbm: Some(SIGNAL_FLOOR + signal_offset as i32),
            bandwidth_mbps: BANDWIDTH_FLOOR + scale(r.bandwidth, BANDWIDTH_SPAN),
            interface_type: "wifi".to_string(),
        }
    }

    /// Draws a fresh sample: what holds of it is what holds of every
    /// sample that some rolls select.
    pub fn collect(&mut self) -> (m: NetworkMetrics)
        requires
            old(self).wf(),
        ensures
            *final(self) == *old(self),
            exists|r: NetworkRolls| r.wf() && network_matches(m, old(self).baseline(), r),
            BASELINE_LATENCY <= m.latency_ms < BASELINE_LATENCY + SPIKE_SPAN,
            m.packet_loss_percent < BURST_LOSS_SPAN,
            SIGNAL_FLOOR <= m.signal_strength_dbm.unwrap() < SIGNAL_FLOOR + SIGNAL_SPAN,
            m.signal_strength_dbm.is_some(),
            BANDWIDTH_FLOOR <= m.bandwidth_mbps < BANDWIDTH_FLOOR + BANDWIDTH_SPAN,
    {
        let spike = roll();
        let latency = roll();
        let burst = roll();
        let loss = roll();
        let signal = roll();
        let bandwidth = roll();
        let r = NetworkRolls { spike, latency, burst, loss, signal, bandwidth };
        let m = self.sample(r);
        proof {
            lemma_scaled_below(r.latency as nat, latency_span(r.spike as nat));
            lemma_scaled_below(r.loss as nat, loss_span(r.burst as nat));
            lemma_scaled_below(r.signal as nat, SIGNAL_SPAN as nat);
            lemma_scaled_below(r.bandwidth as nat, BANDWIDTH_SPAN as nat);
            assert(r.wf() && network_matches(m, self.baseline(), r));
        }
        m
    }
}

/// A scaled roll stays below its span.
proof fn lemma_scaled_below(roll: nat, span: nat)
    requires
        roll < ROLL_SCALE,
        span > 0,
    ensures
        scaled(roll, span) < span,
{
    assert(roll * span / 10000 < span) by (nonlinear_arith)
        requires
            roll < 10000,
            span > 0,
    ;
}

} // verus!
