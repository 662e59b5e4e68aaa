//! Telemetry sources: the LMU shared-memory layout and connection bookkeeping,
//! and the mock scenario.

pub mod link;
pub mod lmu_layout;
pub mod mock;

pub use link::{connect_action, ConnectAction, ConnectionChange, LinkChanges, LinkStatus, VehicleChange};
pub use lmu_layout::{parse_snapshot, LayoutError, SnapshotReading, VehicleTelemetry};
pub use mock::{MockStage, MockStep, MockTelemetryReader};
