//! Occupancy sensor node: motion sensing, occupancy evaluation and
//! periodic telemetry reporting, with their decisions verified.

pub mod occupancy;
pub mod identity;
pub mod config;
pub mod monitor;
pub mod reporter;
pub mod startup;
