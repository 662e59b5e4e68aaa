//! The output interface and an output that discards every frame.

use vstd::prelude::*;

use crate::effects::TriggerOutputFrame;

verus! {

/// Why an output could not deliver a frame.
#[derive(Debug, Clone, PartialEq, Eq)]
pub struct OutputError {
    pub message: String,
}

/// A destination for trigger frames, implemented by each output backend.
pub trait TriggerOutput {
    fn send(&mut self, frame: &TriggerOutputFrame) -> Result<(), OutputError>;
}

/// An output that accepts every frame and sends nothing.
#[derive(Debug, Clone, Copy, PartialEq, Eq, Default)]
pub struct NullOutput;

impl TriggerOutput for NullOutput {
    fn send(&mut self, frame: &TriggerOutputFrame) -> (r: Result<(), OutputError>)
        ensures
            r is Ok,
    {
        Ok(())
    }
}

} // verus!
