//! Provisioning logic for a compressed-RAM cache device bound to a backing
//! block device: device enumeration, sysfs write planning, control-file
//! parsing, new-device resolution, and the orchestration state machine.

pub mod bcache;
pub mod detach;
pub mod enumerate;
pub mod numbers;
pub mod paths;
pub mod resolve;
pub mod sysfs;
pub mod workflow;
pub mod zram;
