//! Adaptive-trigger effects and the rules that select them.

pub mod select;
pub mod trigger;

pub use select::{
    brake_effect, throttle_effect, trigger_frame, BrakeEffectLevels, EffectInputs, EffectLevels,
    RpmEffectLevels, ThrottleEffectLevels,
};
pub use trigger::{TriggerEffect, TriggerOutputFrame};
