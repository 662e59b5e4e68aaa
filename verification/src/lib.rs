//! Verified core of the LMU telemetry to DualSense adaptive-trigger bridge.

pub mod effects;
pub mod text;
pub mod output;
pub mod telemetry;
pub mod util;
pub mod config;
