pub mod error;
pub mod load_balancing;
pub mod telemetry;
