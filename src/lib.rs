//! Simulated time: a bounded nanosecond clock value with checked arithmetic and
//! validated conversions to wall-clock durations and native time structures.

pub mod simulation_time;
pub mod duration;
pub mod native_time;
pub mod bridge;
pub mod sysinfo;
pub mod fcntl;
