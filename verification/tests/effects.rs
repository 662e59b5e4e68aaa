use lmu_dualsense_bridge::effects::{
    brake_effect, throttle_effect, trigger_frame, BrakeEffectLevels, EffectInputs, EffectLevels,
    RpmEffectLevels, ThrottleEffectLevels, TriggerEffect, TriggerOutputFrame,
};

fn driving() -> EffectInputs {
    EffectInputs {
        connected: true,
        player_has_vehicle: true,
        abs_active: false,
        tc_active: false,
        rev_limit_reached: false,
        brake_force: None,
        throttle_force: None,
    }
}

#[test]
fn formats_effects_for_live_log() {
    assert_eq!(TriggerEffect::Normal.to_string(), "NORMAL");
    assert_eq!(
        TriggerEffect::Resistance { start: 2, force: 8 }.to_string(),
        "RESIST(8)"
    );
    assert_eq!(
        TriggerEffect::Pulse {
            start: 2,
            force: 9,
            frequency: 8
        }
        .to_string(),
        "PULSE(9)"
    );
}

#[test]
fn formats_vibration_and_two_digit_levels() {
    assert_eq!(
        TriggerEffect::Vibrate {
            start: 2,
            force: 7,
            frequency: 10
        }
        .to_string(),
        "VIBRATE(7)"
    );
    assert_eq!(
        TriggerEffect::Resistance { start: 0, force: 10 }.to_string(),
        "RESIST(10)"
    );
    assert_eq!(
        TriggerEffect::Pulse {
            start: 0,
            force: 255,
            frequency: 0
        }
        .to_string(),
        "PULSE(255)"
    );
}

// Full brake with the default curve (deadzone 0.03, force 1..=8) gives force 8.
#[test]
fn maps_brake_to_force() {
    let mut inputs = driving();
    inputs.brake_force = Some(8);
    let output = trigger_frame(&EffectLevels::default(), &inputs);
    assert_eq!(
        output.left,
        TriggerEffect::Resistance { start: 2, force: 8 }
    );
}

// Full throttle with the default curve (deadzone 0.03, force 0..=4) gives force 4.
#[test]
fn maps_throttle_to_force() {
    let mut inputs = driving();
    inputs.throttle_force = Some(4);
    let output = trigger_frame(&EffectLevels::default(), &inputs);
    assert_eq!(
        output.right,
        TriggerEffect::Resistance { start: 2, force: 4 }
    );
}

// Pedals below the deadzone carry no resistance force.
#[test]
fn deadzone_maps_to_normal() {
    let output = trigger_frame(&EffectLevels::default(), &driving());
    assert_eq!(output.left, TriggerEffect::Normal);
    assert_eq!(output.right, TriggerEffect::Normal);
}

#[test]
fn abs_overrides_brake() {
    let mut inputs = driving();
    inputs.brake_force = Some(7);
    inputs.abs_active = true;
    assert!(matches!(
        trigger_frame(&EffectLevels::default(), &inputs).left,
        TriggerEffect::Pulse { .. }
    ));
}

#[test]
fn tc_overrides_throttle() {
    let mut inputs = driving();
    inputs.throttle_force = Some(4);
    inputs.tc_active = true;
    assert!(matches!(
        trigger_frame(&EffectLevels::default(), &inputs).right,
        TriggerEffect::Pulse { .. }
    ));
}

// 7900 of 8000 RPM is above the default rev-limit ratio of 0.97.
#[test]
fn rev_limiter_overrides_tc() {
    let mut inputs = driving();
    inputs.throttle_force = Some(4);
    inputs.tc_active = true;
    inputs.rev_limit_reached = true;
    assert!(matches!(
        trigger_frame(&EffectLevels::default(), &inputs).right,
        TriggerEffect::Vibrate { .. }
    ));
}

#[test]
fn default_effect_values() {
    let mut inputs = driving();
    inputs.abs_active = true;
    inputs.tc_active = true;
    assert_eq!(
        trigger_frame(&EffectLevels::default(), &inputs),
        TriggerOutputFrame {
            left: TriggerEffect::Pulse {
                start: 2,
                force: 9,
                frequency: 8
            },
            right: TriggerEffect::Pulse {
                start: 2,
                force: 6,
                frequency: 7
            },
        }
    );
    inputs.rev_limit_reached = true;
    assert_eq!(
        trigger_frame(&EffectLevels::default(), &inputs).right,
        TriggerEffect::Vibrate {
            start: 2,
            force: 7,
            frequency: 10
        }
    );
}

#[test]
fn disconnected_or_no_vehicle_is_normal() {
    let mut inputs = driving();
    inputs.abs_active = true;
    inputs.rev_limit_reached = true;
    inputs.connected = false;
    let normal = TriggerOutputFrame {
        left: TriggerEffect::Normal,
        right: TriggerEffect::Normal,
    };
    assert_eq!(trigger_frame(&EffectLevels::default(), &inputs), normal);
    inputs.connected = true;
    inputs.player_has_vehicle = false;
    assert_eq!(trigger_frame(&EffectLevels::default(), &inputs), normal);
}

#[test]
fn levels_are_capped_at_ten() {
    let brake = BrakeEffectLevels {
        enabled: true,
        min_force: 0,
        max_force: 10,
        start_position: 40,
        abs_pulse_force: 200,
        abs_pulse_frequency: 11,
    };
    assert_eq!(
        brake_effect(&brake, true, None),
        TriggerEffect::Pulse {
            start: 10,
            force: 10,
            frequency: 10
        }
    );
    assert_eq!(
        brake_effect(&brake, false, Some(12)),
        TriggerEffect::Resistance {
            start: 10,
            force: 10
        }
    );
}

#[test]
fn disabled_effects_are_normal_but_rev_limiter_still_applies() {
    let brake = BrakeEffectLevels {
        enabled: false,
        ..BrakeEffectLevels::default()
    };
    assert_eq!(brake_effect(&brake, true, Some(5)), TriggerEffect::Normal);

    let throttle = ThrottleEffectLevels {
        enabled: false,
        ..ThrottleEffectLevels::default()
    };
    let rpm = RpmEffectLevels::default();
    assert_eq!(
        throttle_effect(&rpm, &throttle, false, true, Some(3)),
        TriggerEffect::Normal
    );
    assert_eq!(
        throttle_effect(&rpm, &throttle, true, false, None),
        TriggerEffect::Vibrate {
            start: 2,
            force: 7,
            frequency: 10
        }
    );
    let rpm_off = RpmEffectLevels {
        enabled: false,
        ..RpmEffectLevels::default()
    };
    assert_eq!(
        throttle_effect(&rpm_off, &ThrottleEffectLevels::default(), true, false, Some(3)),
        TriggerEffect::Resistance { start: 2, force: 3 }
    );
}
