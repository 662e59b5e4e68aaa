//! Selection of the L2/R2 effects from the telemetry decisions.
//!
//! The pedal curves (smoothing, deadzone and the rounded resistance force) are
//! computed on floating-point telemetry outside this crate; what reaches these
//! functions is the outcome of those comparisons as plain values.

use vstd::prelude::*;

use super::trigger::{TriggerEffect, TriggerOutputFrame, MAX_LEVEL};

verus! {

/// The integer settings of the L2 (brake) effect.
#[derive(Debug, Clone, Copy, PartialEq, Eq, Structural)]
pub struct BrakeEffectLevels {
    pub enabled: bool,
    pub min_force: u8,
    pub max_force: u8,
    pub start_position: u8,
    pub abs_pulse_force: u8,
    pub abs_pulse_frequency: u8,
}

/// The integer settings of the R2 (throttle) effect.
#[derive(Debug, Clone, Copy, PartialEq, Eq, Structural)]
pub struct ThrottleEffectLevels {
    pub enabled: bool,
    pub min_force: u8,
    pub max_force: u8,
    pub start_position: u8,
    pub tc_pulse_force: u8,
    pub tc_pulse_frequency: u8,
}

/// The integer settings of the rev-limiter vibration on R2.
#[derive(Debug, Clone, Copy, PartialEq, Eq, Structural)]
pub struct RpmEffectLevels {
    pub enabled: bool,
    pub vibration_force: u8,
    pub vibration_frequency: u8,
}

/// All integer effect settings.
#[derive(Debug, Clone, Copy, PartialEq, Eq, Structural)]
pub struct EffectLevels {
    pub brake: BrakeEffectLevels,
    pub throttle: ThrottleEffectLevels,
    pub rpm: RpmEffectLevels,
}

impl Default for BrakeEffectLevels {
    /// Enabled; force 1 to 8 from position 2; ABS pulse force 9 at frequency 8.
    fn default() -> (r: Self)
        ensures
            r == (BrakeEffectLevels {
                enabled: true,
                min_force: 1,
                max_force: 8,
                start_position: 2,
                abs_pulse_force: 9,
                abs_pulse_frequency: 8,
            }),
    {
        BrakeEffectLevels {
            enabled: true,
            min_force: 1,
            max_force: 8,
            start_position: 2,
            abs_pulse_force: 9,
            abs_pulse_frequency: 8,
        }
    }
}

impl Default for ThrottleEffectLevels {
    /// Enabled; force 0 to 4 from position 2; TC pulse force 6 at frequency 7.
    fn default() -> (r: Self)
        ensures
            r == (ThrottleEffectLevels {
                enabled: true,
                min_force: 0,
                max_force: 4,
                start_position: 2,
                tc_pulse_force: 6,
                tc_pulse_frequency: 7,
            }),
    {
        ThrottleEffectLevels {
            enabled: true,
            min_force: 0,
            max_force: 4,
            start_position: 2,
            tc_pulse_force: 6,
            tc_pulse_frequency: 7,
        }
    }
}

impl Default for RpmEffectLevels {
    /// Enabled; vibration force 7 at frequency 10.
    fn default() -> (r: Self)
        ensures
            r == (RpmEffectLevels { enabled: true, vibration_force: 7, vibration_frequency: 10 }),
    {
        RpmEffectLevels { enabled: true, vibration_force: 7, vibration_frequency: 10 }
    }
}

impl Default for EffectLevels {
    /// The default brake, throttle and rev-limiter levels.
    fn default() -> (r: Self)
        ensures
            r.brake == (BrakeEffectLevels {
                enabled: true,
                min_force: 1,
                max_force: 8,
                start_position: 2,
                abs_pulse_force: 9,
                abs_pulse_frequency: 8,
            }),
            r.throttle == (ThrottleEffectLevels {
                enabled: true,
                min_force: 0,
                max_force: 4,
                start_position: 2,
                tc_pulse_force: 6,
                tc_pulse_frequency: 7,
            }),
            r.rpm == (RpmEffectLevels { enabled: true, vibration_force: 7, vibration_frequency: 10 }),
    {
        EffectLevels {
            brake: BrakeEffectLevels::default(),
            throttle: ThrottleEffectLevels::default(),
            rpm: RpmEffectLevels::default(),
        }
    }
}

/// What one telemetry sample says, reduced to the decisions the effects need.
///
/// `brake_force` and `throttle_force` are `None` while the (smoothed) pedal is
/// below its deadzone, and otherwise the rounded resistance force.
#[derive(Debug, Clone, Copy, PartialEq, Eq, Structural)]
pub struct EffectInputs {
    pub connected: bool,
    pub player_has_vehicle: bool,
    pub abs_active: bool,
    pub tc_active: bool,
    pub rev_limit_reached: bool,
    pub brake_force: Option<u8>,
    pub throttle_force: Option<u8>,
}

/// `value` capped at the largest internal level.
pub open spec fn capped(value: u8) -> u8 {
    if value <= MAX_LEVEL { value } else { MAX_LEVEL }
}

fn cap(value: u8) -> (r: u8)
    ensures
        r == capped(value),
{
    if value <= MAX_LEVEL { value } else { MAX_LEVEL }
}

/// The resistance effect for a pedal past its deadzone, or `Normal` before it.
pub open spec fn resistance_effect(start: u8, force: Option<u8>) -> TriggerEffect {
    match force {
        None => TriggerEffect::Normal,
        Some(f) => TriggerEffect::Resistance { start: capped(start), force: capped(f) },
    }
}

fn resistance(start: u8, force: Option<u8>) -> (e: TriggerEffect)
    ensures
        e == resistance_effect(start, force),
{
    match force {
        None => TriggerEffect::Normal,
        Some(f) => TriggerEffect::Resistance { start: cap(start), force: cap(f) },
    }
}

/// L2: ABS pulse, then brake resistance, then `Normal`.
pub fn brake_effect(levels: &BrakeEffectLevels, abs_active: bool, resistance_force: Option<u8>) -> (e:
    TriggerEffect)
    ensures
        !levels.enabled ==> e == TriggerEffect::Normal,
        levels.enabled && abs_active ==> e == (TriggerEffect::Pulse {
            start: capped(levels.start_position),
            force: capped(levels.abs_pulse_force),
            frequency: capped(levels.abs_pulse_frequency),
        }),
        levels.enabled && !abs_active ==> e == resistance_effect(
            levels.start_position,
            resistance_force,
        ),
        e.levels_in_range(),
{
    if !levels.enabled {
        return TriggerEffect::Normal;
    }
    if abs_active {
        return TriggerEffect::Pulse {
            start: cap(levels.start_position),
            force: cap(levels.abs_pulse_force),
            frequency: cap(levels.abs_pulse_frequency),
        };
    }
    resistance(levels.start_position, resistance_force)
}

/// R2: rev-limiter vibration, then TC pulse, then throttle resistance, then `Normal`.
///
/// The rev limiter only needs the RPM effect to be enabled; it applies even when
/// the throttle effect is switched off.
pub fn throttle_effect(
    rpm: &RpmEffectLevels,
    levels: &ThrottleEffectLevels,
    rev_limit_reached: bool,
    tc_active: bool,
    resistance_force: Option<u8>,
) -> (e: TriggerEffect)
    ensures
        rpm.enabled && rev_limit_reached ==> e == (TriggerEffect::Vibrate {
            start: capped(levels.start_position),
            force: capped(rpm.vibration_force),
            frequency: capped(rpm.vibration_frequency),
        }),
        !(rpm.enabled && rev_limit_reached) && !levels.enabled ==> e == TriggerEffect::Normal,
        !(rpm.enabled && rev_limit_reached) && levels.enabled && tc_active ==> e
            == (TriggerEffect::Pulse {
            start: capped(levels.start_position),
            force: capped(levels.tc_pulse_force),
            frequency: capped(levels.tc_pulse_frequency),
        }),
        !(rpm.enabled && rev_limit_reached) && levels.enabled && !tc_active ==> e
            == resistance_effect(levels.start_position, resistance_force),
        e.levels_in_range(),
{
    if rpm.enabled && rev_limit_reached {
        return TriggerEffect::Vibrate {
            start: cap(levels.start_position),
            force: cap(rpm.vibration_force),
            frequency: cap(rpm.vibration_frequency),
        };
    }
    if !levels.enabled {
        return TriggerEffect::Normal;
    }
    if tc_active {
        return TriggerEffect::Pulse {
            start: cap(levels.start_position),
            force: cap(levels.tc_pulse_force),
            frequency: cap(levels.tc_pulse_frequency),
        };
    }
    resistance(levels.start_position, resistance_force)
}

/// Whether the sample comes from a connected game with the player in a car.
pub open spec fn driving(inputs: EffectInputs) -> bool {
    inputs.connected && inputs.player_has_vehicle
}

/// Both triggers for one sample: `Normal` on both sides unless the player is
/// driving, otherwise the L2 and R2 rules.
pub fn trigger_frame(levels: &EffectLevels, inputs: &EffectInputs) -> (frame: TriggerOutputFrame)
    ensures
        !driving(*inputs) ==> frame == (TriggerOutputFrame {
            left: TriggerEffect::Normal,
            right: TriggerEffect::Normal,
        }),
        driving(*inputs) ==> frame.left == brake_effect_spec(levels.brake, *inputs),
        driving(*inputs) ==> frame.right == throttle_effect_spec(levels.rpm, levels.throttle, *inputs),
        driving(*inputs) && levels.brake.enabled && inputs.abs_active ==> frame.left
            == (TriggerEffect::Pulse {
            start: capped(levels.brake.start_position),
            force: capped(levels.brake.abs_pulse_force),
            frequency: capped(levels.brake.abs_pulse_frequency),
        }),
        driving(*inputs) && levels.brake.enabled && !inputs.abs_active ==> frame.left
            == resistance_effect(levels.brake.start_position, inputs.brake_force),
        driving(*inputs) && !levels.brake.enabled ==> frame.left == TriggerEffect::Normal,
        frame.levels_in_range(),
{
    if !inputs.connected || !inputs.player_has_vehicle {
        return TriggerOutputFrame { left: TriggerEffect::Normal, right: TriggerEffect::Normal };
    }
    TriggerOutputFrame {
        left: brake_effect(&levels.brake, inputs.abs_active, inputs.brake_force),
        right: throttle_effect(
            &levels.rpm,
            &levels.throttle,
            inputs.rev_limit_reached,
            inputs.tc_active,
            inputs.throttle_force,
        ),
    }
}

/// The two triggers answer to separate signals. L2 depends only on the ABS
/// flag and the brake force: it pulses exactly when ABS is active (with the
/// brake effect enabled), whatever traction control, the rev limiter or the
/// throttle do. R2 depends only on the rev limiter, the TC flag and the
/// throttle force, whatever ABS or the brake do.
pub proof fn lemma_triggers_answer_to_their_own_signals(
    levels: EffectLevels,
    a: EffectInputs,
    b: EffectInputs,
)
    ensures
        a.abs_active == b.abs_active && a.brake_force == b.brake_force ==> brake_effect_spec(
            levels.brake,
            a,
        ) == brake_effect_spec(levels.brake, b),
        a.rev_limit_reached == b.rev_limit_reached && a.tc_active == b.tc_active
            && a.throttle_force == b.throttle_force ==> throttle_effect_spec(
            levels.rpm,
            levels.throttle,
            a,
        ) == throttle_effect_spec(levels.rpm, levels.throttle, b),
        levels.brake.enabled ==> (brake_effect_spec(levels.brake, a) is Pulse <==> a.abs_active),
        levels.brake.enabled && !a.abs_active ==> brake_effect_spec(levels.brake, a)
            == match a.brake_force {
            None => TriggerEffect::Normal,
            Some(f) => TriggerEffect::Resistance {
                start: capped(levels.brake.start_position),
                force: capped(f),
            },
        },
        !(levels.rpm.enabled && a.rev_limit_reached) && levels.throttle.enabled ==> (
        throttle_effect_spec(levels.rpm, levels.throttle, a) is Pulse <==> a.tc_active),
        levels.rpm.enabled && a.rev_limit_reached ==> throttle_effect_spec(
            levels.rpm,
            levels.throttle,
            a,
        ) is Vibrate,
        !(levels.rpm.enabled && a.rev_limit_reached) ==> !(throttle_effect_spec(
            levels.rpm,
            levels.throttle,
            a,
        ) is Vibrate),
{
}

/// The L2 effect of a driving sample, as [`brake_effect`] states it.
pub open spec fn brake_effect_spec(levels: BrakeEffectLevels, inputs: EffectInputs) -> TriggerEffect {
    if !levels.enabled {
        TriggerEffect::Normal
    } else if inputs.abs_active {
        TriggerEffect::Pulse {
            start: capped(levels.start_position),
            force: capped(levels.abs_pulse_force),
            frequency: capped(levels.abs_pulse_frequency),
        }
    } else {
        resistance_effect(levels.start_position, inputs.brake_force)
    }
}

/// The R2 effect of a driving sample, as [`throttle_effect`] states it.
pub open spec fn throttle_effect_spec(
    rpm: RpmEffectLevels,
    levels: ThrottleEffectLevels,
    inputs: EffectInputs,
) -> TriggerEffect {
    if rpm.enabled && inputs.rev_limit_reached {
        TriggerEffect::Vibrate {
            start: capped(levels.start_position),
            force: capped(rpm.vibration_force),
            frequency: capped(rpm.vibration_frequency),
        }
    } else if !levels.enabled {
        TriggerEffect::Normal
    } else if inputs.tc_active {
        TriggerEffect::Pulse {
            start: capped(levels.start_position),
            force: capped(levels.tc_pulse_force),
            frequency: capped(levels.tc_pulse_frequency),
        }
    } else {
        resistance_effect(levels.start_position, inputs.throttle_force)
    }
}

} // verus!
