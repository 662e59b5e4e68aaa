use lmu_dualsense_bridge::telemetry::lmu_layout::{
    parse_snapshot, Field, LayoutError, SnapshotReading, VehicleTelemetry, ABS_ACTIVE_OFFSET,
    ABS_LEVEL_OFFSET, ACTIVE_VEHICLES_OFFSET, BRAKE_OFFSET, CLUTCH_OFFSET, ENGINE_MAX_RPM_OFFSET,
    ENGINE_RPM_OFFSET, GAME_VERSION_OFFSET, GEAR_OFFSET, LOCAL_ACCELERATION_OFFSET,
    LOCAL_VELOCITY_OFFSET, PLAYER_HAS_VEHICLE_OFFSET, PLAYER_VEHICLE_INDEX_OFFSET, SNAPSHOT_SIZE,
    SPEED_LIMITER_ACTIVE_OFFSET, STEERING_OFFSET, TC_ACTIVE_OFFSET, TC_CUT_LEVEL_OFFSET,
    TC_LEVEL_OFFSET, TC_SLIP_LEVEL_OFFSET, TELEMETRY_UPDATE_EVENT_OFFSET, THROTTLE_OFFSET,
    VEHICLES_OFFSET, VEHICLE_SIZE, WHEELS_OFFSET, WHEEL_ROTATION_OFFSET, WHEEL_SIZE,
};

fn write_u8(bytes: &mut [u8], offset: usize, value: u8) {
    bytes[offset] = value;
}

fn write_i32(bytes: &mut [u8], offset: usize, value: i32) {
    bytes[offset..offset + 4].copy_from_slice(&value.to_le_bytes());
}

fn write_u32(bytes: &mut [u8], offset: usize, value: u32) {
    bytes[offset..offset + 4].copy_from_slice(&value.to_le_bytes());
}

fn write_f64(bytes: &mut [u8], offset: usize, value: f64) {
    bytes[offset..offset + 8].copy_from_slice(&value.to_le_bytes());
}

fn valid_snapshot(player_index: usize) -> Vec<u8> {
    let mut bytes = vec![0; SNAPSHOT_SIZE];
    write_i32(&mut bytes, GAME_VERSION_OFFSET, 1);
    write_u32(&mut bytes, TELEMETRY_UPDATE_EVENT_OFFSET, 1);
    write_u8(&mut bytes, ACTIVE_VEHICLES_OFFSET, 104);
    write_u8(&mut bytes, PLAYER_VEHICLE_INDEX_OFFSET, player_index as u8);
    write_u8(&mut bytes, PLAYER_HAS_VEHICLE_OFFSET, 1);

    let vehicle = VEHICLES_OFFSET + player_index * VEHICLE_SIZE;
    write_f64(&mut bytes, vehicle + LOCAL_VELOCITY_OFFSET, 3.0);
    write_f64(&mut bytes, vehicle + LOCAL_VELOCITY_OFFSET + 8, 4.0);
    write_f64(&mut bytes, vehicle + LOCAL_VELOCITY_OFFSET + 16, 12.0);
    write_f64(&mut bytes, vehicle + LOCAL_ACCELERATION_OFFSET, 0.5);
    write_f64(&mut bytes, vehicle + LOCAL_ACCELERATION_OFFSET + 16, 0.25);
    write_i32(&mut bytes, vehicle + GEAR_OFFSET, 4);
    write_f64(&mut bytes, vehicle + ENGINE_RPM_OFFSET, 7_500.0);
    write_f64(&mut bytes, vehicle + THROTTLE_OFFSET, 0.75);
    write_f64(&mut bytes, vehicle + BRAKE_OFFSET, 0.5);
    write_f64(&mut bytes, vehicle + STEERING_OFFSET, -0.25);
    write_f64(&mut bytes, vehicle + CLUTCH_OFFSET, 0.1);
    write_f64(&mut bytes, vehicle + ENGINE_MAX_RPM_OFFSET, 8_000.0);
    write_u8(&mut bytes, vehicle + ABS_ACTIVE_OFFSET, 1);
    write_u8(&mut bytes, vehicle + TC_ACTIVE_OFFSET, 1);
    write_u8(&mut bytes, vehicle + SPEED_LIMITER_ACTIVE_OFFSET, 1);
    write_u8(&mut bytes, vehicle + TC_LEVEL_OFFSET, 5);
    write_u8(&mut bytes, vehicle + TC_SLIP_LEVEL_OFFSET, 3);
    write_u8(&mut bytes, vehicle + TC_CUT_LEVEL_OFFSET, 2);
    write_u8(&mut bytes, vehicle + ABS_LEVEL_OFFSET, 4);
    for wheel_index in 0..4 {
        let wheel = vehicle + WHEELS_OFFSET + wheel_index * WHEEL_SIZE;
        let rotation = if wheel_index % 2 == 0 { -40.0 } else { -40.04 };
        write_f64(&mut bytes, wheel + WHEEL_ROTATION_OFFSET, rotation);
    }
    bytes
}

fn vehicle(bytes: &[u8]) -> VehicleTelemetry {
    match parse_snapshot(bytes).unwrap() {
        SnapshotReading::Vehicle(vehicle) => vehicle,
        other => panic!("expected a vehicle reading, got {other:?}"),
    }
}

fn as_f32(bits: u64) -> f32 {
    f64::from_bits(bits) as f32
}

#[test]
fn parses_player_telemetry_fields() {
    let frame = vehicle(&valid_snapshot(3));
    assert_eq!(frame.player_index, 3);
    assert_eq!(as_f32(frame.throttle_bits), 0.75);
    assert_eq!(as_f32(frame.brake_bits), 0.5);
    assert_eq!(as_f32(frame.clutch_bits), 0.1);
    assert_eq!(as_f32(frame.steering_bits), -0.25);
    assert_eq!(as_f32(frame.rpm_bits), 7_500.0);
    assert_eq!(as_f32(frame.max_rpm_bits), 8_000.0);
    assert_eq!(frame.gear, 4);
    assert!(frame.abs_active);
    assert!(frame.tc_active);
    assert_eq!(frame.abs_level, 4);
    assert_eq!(frame.tc_level, 5);
    assert_eq!(frame.tc_slip_level, 3);
    assert_eq!(frame.tc_cut_level, 2);
    let speed_mps = f64::from_bits(frame.velocity_x_bits)
        .hypot(f64::from_bits(frame.velocity_y_bits))
        .hypot(f64::from_bits(frame.velocity_z_bits)) as f32;
    assert_eq!(speed_mps, 13.0);
    assert!(frame.pit_limiter_active);
    assert_eq!(f64::from_bits(frame.acceleration_x_bits), 0.5);
    assert_eq!(f64::from_bits(frame.acceleration_z_bits), 0.25);
    assert_eq!(f64::from_bits(frame.wheel_rotation_front_left_bits), -40.0);
    assert_eq!(f64::from_bits(frame.wheel_rotation_front_right_bits), -40.04);
    assert_eq!(f64::from_bits(frame.wheel_rotation_rear_left_bits), -40.0);
    assert_eq!(f64::from_bits(frame.wheel_rotation_rear_right_bits), -40.04);
}

#[test]
fn accepts_last_vehicle_slot() {
    assert!(parse_snapshot(&valid_snapshot(103)).is_ok());
}

#[test]
fn rejects_invalid_player_index() {
    let mut bytes = valid_snapshot(3);
    write_u8(&mut bytes, ACTIVE_VEHICLES_OFFSET, 3);
    assert!(parse_snapshot(&bytes).is_err());
}

#[test]
fn rejects_too_many_active_vehicles() {
    let mut bytes = valid_snapshot(0);
    write_u8(&mut bytes, ACTIVE_VEHICLES_OFFSET, 105);
    assert!(parse_snapshot(&bytes).is_err());
}

#[test]
fn rejects_truncated_snapshot() {
    assert!(parse_snapshot(&vec![0; SNAPSHOT_SIZE - 1]).is_err());
}

#[test]
fn rejects_invalid_bool() {
    let mut bytes = valid_snapshot(0);
    write_u8(&mut bytes, PLAYER_HAS_VEHICLE_OFFSET, 2);
    assert!(parse_snapshot(&bytes).is_err());
}

#[test]
fn rejects_non_finite_and_out_of_range_values() {
    let mut bytes = valid_snapshot(0);
    write_f64(&mut bytes, VEHICLES_OFFSET + THROTTLE_OFFSET, f64::NAN);
    assert!(parse_snapshot(&bytes).is_err());

    let mut bytes = valid_snapshot(0);
    write_f64(&mut bytes, VEHICLES_OFFSET + BRAKE_OFFSET, 1.1);
    assert!(parse_snapshot(&bytes).is_err());
}

#[test]
fn handles_disconnected_and_no_vehicle_states() {
    let bytes = vec![0; SNAPSHOT_SIZE];
    assert_eq!(parse_snapshot(&bytes).unwrap(), SnapshotReading::Offline);

    let mut bytes = valid_snapshot(0);
    write_u8(&mut bytes, PLAYER_HAS_VEHICLE_OFFSET, 0);
    assert_eq!(parse_snapshot(&bytes).unwrap(), SnapshotReading::NoVehicle);
}

#[test]
fn reports_the_first_failing_check() {
    assert_eq!(
        parse_snapshot(&vec![0; 10]),
        Err(LayoutError::SnapshotTooSmall { len: 10 })
    );

    let mut bytes = valid_snapshot(3);
    write_u8(&mut bytes, ACTIVE_VEHICLES_OFFSET, 3);
    assert_eq!(
        parse_snapshot(&bytes),
        Err(LayoutError::InvalidPlayerIndex {
            index: 3,
            active: 3
        })
    );

    let mut bytes = valid_snapshot(0);
    write_f64(&mut bytes, VEHICLES_OFFSET + THROTTLE_OFFSET, f64::NAN);
    write_f64(&mut bytes, VEHICLES_OFFSET + BRAKE_OFFSET, 1.1);
    assert_eq!(
        parse_snapshot(&bytes),
        Err(LayoutError::NotFinite {
            field: Field::Throttle
        })
    );

    let mut bytes = valid_snapshot(0);
    write_f64(&mut bytes, VEHICLES_OFFSET + BRAKE_OFFSET, 1.1);
    assert_eq!(
        parse_snapshot(&bytes),
        Err(LayoutError::OutOfRange {
            field: Field::Brake
        })
    );
}

#[test]
fn checks_float_ranges_on_bit_patterns() {
    let vehicle = VEHICLES_OFFSET;

    let mut bytes = valid_snapshot(0);
    write_f64(&mut bytes, vehicle + THROTTLE_OFFSET, -0.0);
    write_f64(&mut bytes, vehicle + STEERING_OFFSET, -1.0);
    write_f64(&mut bytes, vehicle + BRAKE_OFFSET, 1.0);
    assert!(parse_snapshot(&bytes).is_ok());

    let mut bytes = valid_snapshot(0);
    write_f64(&mut bytes, vehicle + STEERING_OFFSET, -1.0000001);
    assert_eq!(
        parse_snapshot(&bytes),
        Err(LayoutError::OutOfRange {
            field: Field::Steering
        })
    );

    let mut bytes = valid_snapshot(0);
    write_f64(&mut bytes, vehicle + CLUTCH_OFFSET, -0.5);
    assert_eq!(
        parse_snapshot(&bytes),
        Err(LayoutError::OutOfRange {
            field: Field::Clutch
        })
    );

    let mut bytes = valid_snapshot(0);
    write_f64(&mut bytes, vehicle + ENGINE_RPM_OFFSET, f64::INFINITY);
    assert_eq!(
        parse_snapshot(&bytes),
        Err(LayoutError::NotFinite { field: Field::Rpm })
    );

    let mut bytes = valid_snapshot(0);
    write_f64(&mut bytes, vehicle + ENGINE_RPM_OFFSET, f64::from(f32::MAX));
    assert!(parse_snapshot(&bytes).is_ok());
    write_f64(&mut bytes, vehicle + ENGINE_RPM_OFFSET, f64::from(f32::MAX) * 1.0000001);
    assert_eq!(
        parse_snapshot(&bytes),
        Err(LayoutError::OutOfRange { field: Field::Rpm })
    );

    let mut bytes = valid_snapshot(0);
    write_f64(&mut bytes, vehicle + ENGINE_MAX_RPM_OFFSET, 0.0);
    assert_eq!(parse_snapshot(&bytes), Err(LayoutError::MaxRpmNotPositive));
    write_f64(&mut bytes, vehicle + ENGINE_MAX_RPM_OFFSET, 1e-300);
    assert_eq!(parse_snapshot(&bytes), Err(LayoutError::MaxRpmNotPositive));
    write_f64(&mut bytes, vehicle + ENGINE_MAX_RPM_OFFSET, 1e-44);
    assert!(parse_snapshot(&bytes).is_ok());
}

#[test]
fn checks_gear_range_and_motion_values() {
    let vehicle = VEHICLES_OFFSET;
    let mut bytes = valid_snapshot(0);
    write_i32(&mut bytes, vehicle + GEAR_OFFSET, -1);
    assert_eq!(parse_snapshot(&bytes).map(|r| r != SnapshotReading::Offline), Ok(true));
    write_i32(&mut bytes, vehicle + GEAR_OFFSET, -2);
    assert_eq!(
        parse_snapshot(&bytes),
        Err(LayoutError::GearOutOfRange { gear: -2 })
    );
    write_i32(&mut bytes, vehicle + GEAR_OFFSET, 21);
    assert_eq!(
        parse_snapshot(&bytes),
        Err(LayoutError::GearOutOfRange { gear: 21 })
    );

    let mut bytes = valid_snapshot(0);
    write_f64(
        &mut bytes,
        vehicle + WHEELS_OFFSET + 3 * WHEEL_SIZE + WHEEL_ROTATION_OFFSET,
        f64::NEG_INFINITY,
    );
    assert_eq!(
        parse_snapshot(&bytes),
        Err(LayoutError::NotFinite {
            field: Field::WheelRotation
        })
    );

    let mut bytes = valid_snapshot(0);
    write_u8(&mut bytes, vehicle + SPEED_LIMITER_ACTIVE_OFFSET, 7);
    assert_eq!(
        parse_snapshot(&bytes),
        Err(LayoutError::InvalidBool {
            offset: vehicle + SPEED_LIMITER_ACTIVE_OFFSET,
            value: 7
        })
    );
}

#[test]
fn stale_telemetry_or_negative_version() {
    let mut bytes = valid_snapshot(0);
    write_u32(&mut bytes, TELEMETRY_UPDATE_EVENT_OFFSET, 0);
    assert_eq!(parse_snapshot(&bytes), Ok(SnapshotReading::NoVehicle));

    let mut bytes = valid_snapshot(0);
    write_i32(&mut bytes, GAME_VERSION_OFFSET, -5);
    write_u8(&mut bytes, ACTIVE_VEHICLES_OFFSET, 200);
    assert_eq!(parse_snapshot(&bytes), Ok(SnapshotReading::Offline));
}
