//! The core of a host metrics sampler: what is sampled, how samples become
//! snapshots, and when each kind of sample is due.

pub mod commands;
pub mod cpu;
pub mod disk;
pub mod interval;
pub mod lifecycle;
pub mod memory;
pub mod menu;
pub mod network;
pub mod percent;
pub mod sampler;
pub mod schedule;
pub mod state;
pub mod sums;
pub mod text;
pub mod types;
pub mod window;
