//! Trigger outputs: the output interface, the null sink and the DSX encoder.

pub mod dsx;
pub mod null_output;

pub use dsx::{DsxPacketEncoder, EncodeError};
pub use null_output::{NullOutput, OutputError, TriggerOutput};
