//! A desk-pet style host health monitor: raw resource readings are smoothed,
//! converted to percentages, classified against fixed thresholds, and
//! aggregated into a single pet mood.

pub mod commands;
pub mod monitor;
pub mod pet;

pub use commands::{CleanupResponse, MetricsResponse, PetStateResponse};
pub use monitor::{Metrics, RawReading, SystemMonitor};
pub use pet::{MetricStatus, Pet, PetState};
