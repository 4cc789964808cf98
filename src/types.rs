use vstd::prelude::*;

verus! {

/// Schema version carried by every packet.
pub const PACKET_VERSION: u8 = 1;

/// Host and simulated power readings. Every field is in hundredths of its
/// unit (a percentage of 12.34 is held as 1234).
#[derive(Debug, Clone, Copy, PartialEq, Eq)]
pub struct SystemMetrics {
    pub cpu_percent: u32,
    pub memory_percent: u32,
    pub battery_percent: u32,
    /// Degrees Celsius, in hundredths.
    pub temperature: u32,
}

/// Link-quality readings, each in hundredths of its unit.
#[derive(Debug, Clone)]
pub struct NetworkMetrics {
    pub latency_ms: u32,
    pub packet_loss_percent: u32,
    /// Absent when no radio link is detected.
    pub signal_strength_dbm: Option<i32>,
    pub bandwidth_mbps: u32,
    pub interface_type: String,
}

/// Per-topic record of the application middleware.
#[derive(Debug, Clone)]
pub struct ROS2TopicMetric {
    pub topic_name: String,
    pub node_name: String,
    /// Hertz, in hundredths.
    pub publish_rate_hz: u32,
    pub message_size_bytes: u32,
    pub queue_depth: u32,
    pub dropped_messages: u32,
}

/// Planar position of the robot, each coordinate in thousandths of a unit.
#[derive(Debug, Clone, Copy, PartialEq, Eq)]
pub struct Position {
    pub x: i32,
    pub y: i32,
    pub z: i32,
}

/// Task state of the robot.
#[derive(Debug, Clone)]
pub struct RobotStatus {
    /// One of "moving", "idle", "charging".
    pub state: String,
    /// Present only while moving.
    pub current_task: Option<String>,
    /// Percentage in [0, 100].
    pub task_progress: u8,
}

/// One telemetry snapshot, produced once per tick.
#[derive(Debug, Clone)]
pub struct MetricPacket {
    pub version: u8,
    pub robot_id: String,
    pub warehouse_id: String,
    /// Nanoseconds since the Unix epoch.
    pub timestamp: u64,
    pub sequence: u64,
    pub system: SystemMetrics,
    pub network: NetworkMetrics,
    pub ros2: Vec<ROS2TopicMetric>,
    pub position: Position,
    pub status: RobotStatus,
}

} // verus!
