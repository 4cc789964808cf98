use robot_agent::agent::{assemble_packet, progress_report_due, Agent, AgentConfig};
use robot_agent::ros2::ROS2Collector;
use robot_agent::system::HostStats;
use robot_agent::network::{NetworkCollector, NetworkRolls};
use robot_agent::types::{Position, SystemMetrics};

fn config() -> AgentConfig {
    AgentConfig { robot_id: "robot_001".to_string(), warehouse_id: "warehouse_A".to_string() }
}

fn host() -> HostStats {
    HostStats { cpu_percent: 2050, used_memory: 1, total_memory: 4 }
}

#[test]
fn first_tick_packet() {
    let mut agent = Agent::new(config());
    assert_eq!(agent.sequence(), 0);
    let position = Position { x: 998, y: 9950, z: 0 };
    let p = agent.tick(host(), 1_700_000_000_000_000_000, position);
    assert_eq!(agent.sequence(), 1);
    assert_eq!(p.version, 1);
    assert_eq!(p.sequence, 1);
    assert_eq!(p.robot_id, "robot_001");
    assert_eq!(p.warehouse_id, "warehouse_A");
    assert_eq!(p.timestamp, 1_700_000_000_000_000_000);
    assert_eq!(p.position, position);
    assert_eq!(p.status.state, "moving");
    assert_eq!(p.status.current_task.as_deref(), Some("transport_item_A45"));
    assert_eq!(p.status.task_progress, 1);
    assert_eq!(p.system.cpu_percent, 2050);
    assert_eq!(p.system.memory_percent, 2500);
    assert_eq!(p.system.battery_percent, 9995);
    assert!(p.ros2.is_empty());
    assert_eq!(p.network.interface_type, "wifi");
}

#[test]
fn sequence_advances_by_one_per_tick() {
    let mut agent = Agent::new(config());
    let origin = Position { x: 0, y: 0, z: 0 };
    for expected in 1..=250u64 {
        let p = agent.tick(host(), expected, origin);
        assert_eq!(p.sequence, expected);
        assert_eq!(agent.sequence(), expected);
        assert_eq!(p.status.state, robot_status_name(expected));
    }
}

fn robot_status_name(sequence: u64) -> &'static str {
    match sequence % 100 {
        0..=59 => "moving",
        60..=79 => "idle",
        _ => "charging",
    }
}

#[test]
fn assemble_keeps_every_record() {
    let system = SystemMetrics { cpu_percent: 1, memory_percent: 2, battery_percent: 3, temperature: 4 };
    let network = NetworkCollector::new().sample(NetworkRolls {
        spike: 1,
        latency: 2,
        burst: 3,
        loss: 4,
        signal: 5,
        bandwidth: 6,
    });
    let ros2 = ROS2Collector::new().collect();
    let position = Position { x: -1, y: 2, z: 3 };
    let p = assemble_packet(&config(), 70, 99, system, network, ros2, position);
    assert_eq!(p.version, 1);
    assert_eq!(p.sequence, 70);
    assert_eq!(p.timestamp, 99);
    assert_eq!(p.system, system);
    assert_eq!(p.network.latency_ms, 1001);
    assert_eq!(p.position, position);
    assert_eq!(p.status.state, "idle");
    assert_eq!(p.status.current_task, None);
}

#[test]
fn progress_report_every_tenth_successful_tick() {
    assert!(progress_report_due(10, true));
    assert!(progress_report_due(0, true));
    assert!(!progress_report_due(10, false));
    assert!(!progress_report_due(11, true));
}
