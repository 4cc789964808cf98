use vstd::prelude::*;
use crate::network::{network_matches, NetworkCollector, NetworkRolls, BASELINE_LATENCY};
use crate::ros2::ROS2Collector;
use crate::status::{robot_status, status_matches};
use crate::system::{
    battery_step, memory_percent_of, HostStats, SystemCollector, BATTERY_FULL, TEMPERATURE_BASE,
    TEMPERATURE_SPAN,
};
use crate::types::{
    MetricPacket, NetworkMetrics, Position, ROS2TopicMetric, SystemMetrics, PACKET_VERSION,
};

verus! {

/// A progress line is due on every tick whose number is a multiple of this.
pub const REPORT_EVERY: u64 = 10;

/// Identifiers fixed for the lifetime of the agent.
#[derive(Debug, Clone)]
pub struct AgentConfig {
    pub robot_id: String,
    pub warehouse_id: String,
}

/// Puts one packet together from the records of a tick.
pub fn assemble_packet(
    config: &AgentConfig,
    sequence: u64,
    timestamp: u64,
    system: SystemMetrics,
    network: NetworkMetrics,
    ros2: Vec<ROS2TopicMetric>,
    position: Position,
) -> (p: MetricPacket)
    ensures
        p.version == PACKET_VERSION,
        p.robot_id@ == config.robot_id@,
        p.warehouse_id@ == config.warehouse_id@,
        p.timestamp == timestamp,
        p.sequence == sequence,
        p.system == system,
        p.network == network,
        p.ros2 == ros2,
        p.position == position,
        status_matches(p.status, sequence as nat),
{
    MetricPacket {
        version: PACKET_VERSION,
        robot_id: config.robot_id.clone(),
        warehouse_id: config.warehouse_id.clone(),
        timestamp,
        sequence,
        system,
        network,
        ros2,
        position,
        status: robot_status(sequence),
    }
}

/// Whether the tick numbered `sequence` reports its progress: only after a
/// successful send, on every `REPORT_EVERY`-th tick.
pub fn progress_report_due(sequence: u64, sent: bool) -> (r: bool)
    ensures
        r == (sent && sequence % REPORT_EVERY == 0),
{
    sent && sequence % REPORT_EVERY == 0
}

/// The sampling driver: owns the collectors and the sequence counter.
pub struct Agent {
    config: AgentConfig,
    sequence: u64,
    system: SystemCollector,
    network: NetworkCollector,
    ros2: ROS2Collector,
}

impl Agent {
    /// Number of ticks taken so far.
    pub closed spec fn seq(&self) -> nat {
        self.sequence as nat
    }

    pub closed spec fn robot_id(&self) -> Seq<char> {
        self.config.robot_id@
    }

    pub closed spec fn warehouse_id(&self) -> Seq<char> {
        self.config.warehouse_id@
    }

    /// The simulated battery charge, in hundredths of a percent.
    pub closed spec fn battery(&self) -> nat {
        self.system.battery()
    }

    pub closed spec fn wf(&self) -> bool {
        self.system.wf() && self.network.wf()
    }

    /// An agent that has taken no tick yet, with a full battery.
    pub fn new(config: AgentConfig) -> (a: Self)
        ensures
            a.wf(),
            a.seq() == 0,
            a.robot_id() == config.robot_id@,
            a.warehouse_id() == config.warehouse_id@,
            a.battery() == BATTERY_FULL,
    {
        Agent {
            config,
            sequence: 0,
            system: SystemCollector::new(),
            network: NetworkCollector::new(),
            ros2: ROS2Collector::new(),
        }
    }

    /// The number of the last tick taken (zero before the first).
    pub fn sequence(&self) -> (r: u64)
        ensures
            r as nat == self.seq(),
    {
        self.sequence
    }

    /// Takes one tick: advances the counter, samples every collector and
    /// assembles the packet. `position` is the one derived for the new
    /// sequence number, and `timestamp` the wall-clock time of the tick.
    pub fn tick(&mut self, host: HostStats, timestamp: u64, position: Position) -> (p: MetricPacket)
        requires
            old(self).wf(),
            old(self).seq() < u64::MAX,
        ensures
            final(self).wf(),
            final(self).seq() == old(self).seq() + 1,
            final(self).robot_id() == old(self).robot_id(),
            final(self).warehouse_id() == old(self).warehouse_id(),
            final(self).battery() == battery_step(old(self).battery()),
            p.version == PACKET_VERSION,
            p.robot_id@ == old(self).robot_id(),
            p.warehouse_id@ == old(self).warehouse_id(),
            p.timestamp == timestamp,
            p.sequence as nat == final(self).seq(),
            p.position == position,
            status_matches(p.status, p.sequence as nat),
            p.ros2@.len() == 0,
            p.system.cpu_percent == host.cpu_percent,
            p.system.memory_percent as nat == memory_percent_of(
                host.used_memory as nat,
                host.total_memory as nat,
            ),
            p.system.battery_percent as nat == final(self).battery(),
            TEMPERATURE_BASE <= p.system.temperature < TEMPERATURE_BASE + TEMPERATURE_SPAN,
            exists|r: NetworkRolls| r.wf() && network_matches(p.network, BASELINE_LATENCY as nat, r),
    {
        self.sequence = self.sequence + 1;
        let system = self.system.collect(host);
        let network = self.network.collect();
        let ros2 = self.ros2.collect();
        assemble_packet(&self.config, self.sequence, timestamp, system, network, ros2, position)
    }
}

} // verus!
