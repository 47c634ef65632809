//! Network quality measurement engine.
//!
//! The measurement logic is verified: staged transfer plans, sample
//! validation, and the reductions that turn raw timing samples into one
//! reported figure per dimension (download, upload, latency, jitter).
//! All quantities are integers: throughput in bits per second, round-trip
//! times in milliseconds, elapsed times in microseconds. The unverified
//! application shell performs the HTTP transfers and converts the integer
//! figures to the floating-point units it displays.

pub mod latency;
pub mod network_metrics;
pub mod ping;
pub mod sorting;
pub mod speed;
pub mod throttle;
