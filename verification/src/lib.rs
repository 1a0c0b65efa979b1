//! A host quality-metric sampler: named metric sources (CPU load, network
//! throughput, disk I/O) are registered with fixed weights, evaluated in
//! order against one provider snapshot, and reduced to a single weighted-sum
//! score.
//!
//! Values and weights are fixed-point numbers in micro-units (one unit is
//! `SCALE` micro-units), so the whole model is exact integer arithmetic.

pub mod aggregate;
pub mod evaluate;
pub mod metrics;
pub mod probe;
pub mod report;
pub mod registry;
