//! Average-precision metrics: per-label curves and the final report.

pub mod detection;
pub mod error;
pub mod score;
pub mod tp_metrics;
