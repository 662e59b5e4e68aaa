//! The backend-independent representation of a trigger command.

use vstd::prelude::*;
use vstd::string::StringExecFns;

use crate::text::{decimal, push_decimal};

verus! {

/// Largest internal effect level; protocol encoders rescale from `0..=10`.
pub const MAX_LEVEL: u8 = 10;

/// Effect sent to one adaptive trigger.
#[derive(Debug, Clone, PartialEq, Eq, Structural)]
pub enum TriggerEffect {
    Normal,
    Resistance { start: u8, force: u8 },
    Pulse { start: u8, force: u8, frequency: u8 },
    Vibrate { start: u8, force: u8, frequency: u8 },
}

/// Effects for the left (L2) and right (R2) triggers.
#[derive(Debug, Clone, PartialEq, Eq, Structural)]
pub struct TriggerOutputFrame {
    pub left: TriggerEffect,
    pub right: TriggerEffect,
}

impl TriggerEffect {
    /// Every level carried by the effect lies in `0..=10`.
    pub open spec fn levels_in_range(self) -> bool {
        match self {
            TriggerEffect::Normal => true,
            TriggerEffect::Resistance { start, force } => start <= MAX_LEVEL && force <= MAX_LEVEL,
            TriggerEffect::Pulse { start, force, frequency } => start <= MAX_LEVEL && force
                <= MAX_LEVEL && frequency <= MAX_LEVEL,
            TriggerEffect::Vibrate { start, force, frequency } => start <= MAX_LEVEL && force
                <= MAX_LEVEL && frequency <= MAX_LEVEL,
        }
    }

    /// The short label used in the live log: `NORMAL`, `RESIST(f)`, `PULSE(f)`, `VIBRATE(f)`.
    pub open spec fn label(self) -> Seq<char> {
        match self {
            TriggerEffect::Normal => "NORMAL"@,
            TriggerEffect::Resistance { force, .. } => "RESIST("@ + decimal(force as nat) + ")"@,
            TriggerEffect::Pulse { force, .. } => "PULSE("@ + decimal(force as nat) + ")"@,
            TriggerEffect::Vibrate { force, .. } => "VIBRATE("@ + decimal(force as nat) + ")"@,
        }
    }

    /// Renders the effect for the live log (see [`TriggerEffect::label`]).
    pub fn to_string(&self) -> (s: String)
        ensures
            s@ == self.label(),
    {
        let (head, force) = match self {
            TriggerEffect::Normal => {
                return String::from_str("NORMAL");
            },
            TriggerEffect::Resistance { force, .. } => ("RESIST(", *force),
            TriggerEffect::Pulse { force, .. } => ("PULSE(", *force),
            TriggerEffect::Vibrate { force, .. } => ("VIBRATE(", *force),
        };
        let mut s = String::from_str(head);
        push_decimal(&mut s, force as u32);
        s.append(")");
        s
    }
}

impl TriggerOutputFrame {
    /// Both effects carry levels in `0..=10`.
    pub open spec fn levels_in_range(self) -> bool {
        self.left.levels_in_range() && self.right.levels_in_range()
    }
}

} // verus!
