//! Decentralized backlog prioritization: weighted voting on issues,
//! reputation with decay, emergency fast-tracking and maintainer slashing.

pub mod math;
pub mod types;
pub mod errors;
pub mod reputation_manager;
pub mod emergency_scoping;
pub mod pair_map;
pub mod slashing_manager;
pub mod wave;
pub mod wave_scoping;
