//! Telemetry agent core: metric collectors, the robot status state machine
//! and packet assembly, with every value held in integer fixed point.
pub mod types;
pub mod status;
pub mod random;
pub mod system;
pub mod network;
pub mod ros2;
pub mod agent;
