//! The LMU `LMU_Data` shared-memory snapshot and its checked byte parser.
//!
//! The snapshot uses a 4-byte packed layout. Only the fields the bridge needs
//! are read; every read is bounds-checked and every value is validated. The
//! 8-byte floating-point fields are validated on their IEEE-754 bit patterns
//! and handed on as those bit patterns.

use vstd::prelude::*;

verus! {

/// Size of a complete snapshot in bytes.
pub const SNAPSHOT_SIZE: usize = 324_820;

/// Number of vehicle slots in the telemetry block.
pub const MAX_VEHICLES: usize = 104;

pub const GAME_VERSION_OFFSET: usize = 64;
pub const TELEMETRY_UPDATE_EVENT_OFFSET: usize = 44;
pub const TELEMETRY_OFFSET: usize = 128_464;
pub const ACTIVE_VEHICLES_OFFSET: usize = 128_464;
pub const PLAYER_VEHICLE_INDEX_OFFSET: usize = 128_465;
pub const PLAYER_HAS_VEHICLE_OFFSET: usize = 128_466;
pub const VEHICLES_OFFSET: usize = 128_468;
pub const VEHICLE_SIZE: usize = 1_888;

pub const LOCAL_VELOCITY_OFFSET: usize = 184;
pub const LOCAL_ACCELERATION_OFFSET: usize = 208;
pub const GEAR_OFFSET: usize = 352;
pub const ENGINE_RPM_OFFSET: usize = 356;
pub const THROTTLE_OFFSET: usize = 388;
pub const BRAKE_OFFSET: usize = 396;
pub const STEERING_OFFSET: usize = 404;
pub const CLUTCH_OFFSET: usize = 412;
pub const ENGINE_MAX_RPM_OFFSET: usize = 532;
pub const ABS_ACTIVE_OFFSET: usize = 746;
pub const TC_ACTIVE_OFFSET: usize = 747;
pub const SPEED_LIMITER_ACTIVE_OFFSET: usize = 748;
pub const TC_LEVEL_OFFSET: usize = 750;
pub const TC_SLIP_LEVEL_OFFSET: usize = 752;
pub const TC_CUT_LEVEL_OFFSET: usize = 754;
pub const ABS_LEVEL_OFFSET: usize = 756;
pub const WHEELS_OFFSET: usize = 848;
pub const WHEEL_SIZE: usize = 260;
pub const WHEEL_ROTATION_OFFSET: usize = 40;

/// Bit pattern of the `f64` value `1.0`.
pub const F64_ONE_BITS: u64 = 0x3FF0_0000_0000_0000;

/// Bit pattern of `f32::MAX` widened to `f64`.
pub const F32_MAX_AS_F64_BITS: u64 = 0x47EF_FFFF_E000_0000;

/// Bit pattern of the `f64` value `2^-150`, the largest positive value that
/// rounds to zero when narrowed to `f32`.
pub const F32_ZERO_LIMIT_BITS: u64 = 0x3690_0000_0000_0000;

/// Sign bit of an `f64` bit pattern.
pub const F64_SIGN_BIT: u64 = 0x8000_0000_0000_0000;

/// A validated floating-point field of the player's vehicle.
#[derive(Debug, Clone, Copy, PartialEq, Eq, Structural)]
pub enum Field {
    Throttle,
    Brake,
    Clutch,
    Steering,
    Rpm,
    MaxRpm,
    VelocityX,
    VelocityY,
    VelocityZ,
    AccelerationX,
    AccelerationZ,
    WheelRotation,
}

/// Why a snapshot was rejected.
#[derive(Debug, Clone, Copy, PartialEq, Eq, Structural)]
pub enum LayoutError {
    SnapshotTooSmall { len: usize },
    OutsideSnapshot { offset: usize },
    RangeOverflow { offset: usize },
    TooManyVehicles { count: u8 },
    InvalidBool { offset: usize, value: u8 },
    InvalidPlayerIndex { index: u8, active: u8 },
    NotFinite { field: Field },
    OutOfRange { field: Field },
    MaxRpmNotPositive,
    GearOutOfRange { gear: i32 },
}

/// The player vehicle's telemetry; `*_bits` fields are `f64` bit patterns.
#[derive(Debug, Clone, Copy, PartialEq, Eq, Structural)]
pub struct VehicleTelemetry {
    pub player_index: u8,
    pub throttle_bits: u64,
    pub brake_bits: u64,
    pub clutch_bits: u64,
    pub steering_bits: u64,
    pub rpm_bits: u64,
    pub max_rpm_bits: u64,
    pub gear: i32,
    pub velocity_x_bits: u64,
    pub velocity_y_bits: u64,
    pub velocity_z_bits: u64,
    pub acceleration_x_bits: u64,
    pub acceleration_z_bits: u64,
    pub wheel_rotation_front_left_bits: u64,
    pub wheel_rotation_front_right_bits: u64,
    pub wheel_rotation_rear_left_bits: u64,
    pub wheel_rotation_rear_right_bits: u64,
    pub abs_active: bool,
    pub tc_active: bool,
    pub abs_level: u8,
    pub tc_level: u8,
    pub tc_slip_level: u8,
    pub tc_cut_level: u8,
    pub pit_limiter_active: bool,
}

/// What a valid snapshot says.
#[derive(Debug, Clone, Copy, PartialEq, Eq, Structural)]
pub enum SnapshotReading {
    /// The game has not published telemetry (game version not positive).
    Offline,
    /// The game is running, but no updated telemetry or no player vehicle.
    NoVehicle,
    /// The player is in a car.
    Vehicle(VehicleTelemetry),
}

// ---------------------------------------------------------------------------
// Byte-level model

/// Little-endian unsigned value of the four bytes at `off`.
pub open spec fn le_u32_at(s: Seq<u8>, off: int) -> int {
    s[off] as int + (s[off + 1] as int) * 0x100 + (s[off + 2] as int) * 0x1_0000 + (s[off + 3] as int)
        * 0x100_0000
}

/// Little-endian unsigned value of the eight bytes at `off`.
pub open spec fn le_u64_at(s: Seq<u8>, off: int) -> int {
    le_u32_at(s, off) + le_u32_at(s, off + 4) * 0x1_0000_0000
}

/// Two's-complement reading of a 32-bit unsigned value.
pub open spec fn as_i32(u: int) -> int {
    if u >= 0x8000_0000 { u - 0x1_0000_0000 } else { u }
}

/// The `f64` bit pattern stored at `off`.
pub open spec fn bits_at(s: Seq<u8>, off: int) -> u64 {
    le_u64_at(s, off) as u64
}

// ---------------------------------------------------------------------------
// IEEE-754 binary64 predicates on bit patterns

/// The biased exponent field.
pub open spec fn f64_exponent(bits: u64) -> int {
    (bits as int / 0x10_0000_0000_0000) % 0x800
}

/// Neither infinite nor NaN.
pub open spec fn f64_finite(bits: u64) -> bool {
    f64_exponent(bits) != 0x7ff
}

/// The sign bit is set.
pub open spec fn f64_sign(bits: u64) -> bool {
    bits >= F64_SIGN_BIT
}

/// `+0.0` or `-0.0`.
pub open spec fn f64_zero(bits: u64) -> bool {
    bits == 0 || bits == F64_SIGN_BIT
}

/// `0.0 <= x <= 1.0` (for non-NaN `x`; ordering of positive finite values
/// follows their bit patterns).
pub open spec fn f64_in_unit(bits: u64) -> bool {
    f64_zero(bits) || (!f64_sign(bits) && bits <= F64_ONE_BITS)
}

/// `-1.0 <= x <= 1.0`.
pub open spec fn f64_in_signed_unit(bits: u64) -> bool {
    (bits as int % F64_SIGN_BIT as int) <= F64_ONE_BITS as int
}

/// `0.0 <= x <= f32::MAX`.
pub open spec fn f64_in_f32_range(bits: u64) -> bool {
    f64_zero(bits) || (!f64_sign(bits) && bits <= F32_MAX_AS_F64_BITS)
}

/// `(x as f32) > 0.0`: positive and not rounded away to zero.
pub open spec fn f64_positive_as_f32(bits: u64) -> bool {
    !f64_sign(bits) && bits > F32_ZERO_LIMIT_BITS
}

// ---------------------------------------------------------------------------
// Validation model

pub open spec fn finite_check(bits: u64, field: Field) -> Option<LayoutError> {
    if !f64_finite(bits) { Some(LayoutError::NotFinite { field }) } else { None }
}

pub open spec fn unit_check(bits: u64, field: Field) -> Option<LayoutError> {
    if !f64_finite(bits) {
        Some(LayoutError::NotFinite { field })
    } else if !f64_in_unit(bits) {
        Some(LayoutError::OutOfRange { field })
    } else {
        None
    }
}

pub open spec fn signed_unit_check(bits: u64, field: Field) -> Option<LayoutError> {
    if !f64_finite(bits) {
        Some(LayoutError::NotFinite { field })
    } else if !f64_in_signed_unit(bits) {
        Some(LayoutError::OutOfRange { field })
    } else {
        None
    }
}

pub open spec fn non_negative_check(bits: u64, field: Field) -> Option<LayoutError> {
    if !f64_finite(bits) {
        Some(LayoutError::NotFinite { field })
    } else if !f64_in_f32_range(bits) {
        Some(LayoutError::OutOfRange { field })
    } else {
        None
    }
}

pub open spec fn bool_check(s: Seq<u8>, off: int) -> Option<LayoutError> {
    if s[off] > 1 {
        Some(LayoutError::InvalidBool { offset: off as usize, value: s[off] })
    } else {
        None
    }
}

/// `first` if it reports an error, else `rest`.
pub open spec fn first_of(first: Option<LayoutError>, rest: Option<LayoutError>) -> Option<
    LayoutError,
> {
    if first is Some { first } else { rest }
}

/// Offset of wheel `w`'s rotation inside the vehicle record at `v`.
pub open spec fn wheel_rotation_offset(v: int, w: int) -> int {
    v + WHEELS_OFFSET + w * WHEEL_SIZE + WHEEL_ROTATION_OFFSET
}

/// The first failing check of the vehicle record at `v`, in reading order.
pub open spec fn vehicle_error(s: Seq<u8>, v: int) -> Option<LayoutError> {
    let max_rpm = bits_at(s, v + ENGINE_MAX_RPM_OFFSET);
    let gear = as_i32(le_u32_at(s, v + GEAR_OFFSET));
    first_of(
        unit_check(bits_at(s, v + THROTTLE_OFFSET), Field::Throttle),
    first_of(
        unit_check(bits_at(s, v + BRAKE_OFFSET), Field::Brake),
    first_of(
        unit_check(bits_at(s, v + CLUTCH_OFFSET), Field::Clutch),
    first_of(
        signed_unit_check(bits_at(s, v + STEERING_OFFSET), Field::Steering),
    first_of(
        non_negative_check(bits_at(s, v + ENGINE_RPM_OFFSET), Field::Rpm),
    first_of(
        non_negative_check(max_rpm, Field::MaxRpm),
    first_of(
        if !f64_positive_as_f32(max_rpm) { Some(LayoutError::MaxRpmNotPositive) } else { None },
    first_of(
        if !(-1 <= gear <= 20) { Some(LayoutError::GearOutOfRange { gear: gear as i32 }) } else { None },
    first_of(
        finite_check(bits_at(s, v + LOCAL_VELOCITY_OFFSET), Field::VelocityX),
    first_of(
        finite_check(bits_at(s, v + LOCAL_VELOCITY_OFFSET + 8), Field::VelocityY),
    first_of(
        finite_check(bits_at(s, v + LOCAL_VELOCITY_OFFSET + 16), Field::VelocityZ),
    first_of(
        finite_check(bits_at(s, v + LOCAL_ACCELERATION_OFFSET), Field::AccelerationX),
    first_of(
        finite_check(bits_at(s, v + LOCAL_ACCELERATION_OFFSET + 16), Field::AccelerationZ),
    first_of(
        finite_check(bits_at(s, wheel_rotation_offset(v, 0)), Field::WheelRotation),
    first_of(
        finite_check(bits_at(s, wheel_rotation_offset(v, 1)), Field::WheelRotation),
    first_of(
        finite_check(bits_at(s, wheel_rotation_offset(v, 2)), Field::WheelRotation),
    first_of(
        finite_check(bits_at(s, wheel_rotation_offset(v, 3)), Field::WheelRotation),
    first_of(
        bool_check(s, v + ABS_ACTIVE_OFFSET),
    first_of(
        bool_check(s, v + TC_ACTIVE_OFFSET),
        bool_check(s, v + SPEED_LIMITER_ACTIVE_OFFSET),
    )))))))))))))))))))
}

/// The fields of the vehicle record at `v`, for player slot `index`.
pub open spec fn vehicle_record(s: Seq<u8>, v: int, index: u8) -> VehicleTelemetry {
    VehicleTelemetry {
        player_index: index,
        throttle_bits: bits_at(s, v + THROTTLE_OFFSET),
        brake_bits: bits_at(s, v + BRAKE_OFFSET),
        clutch_bits: bits_at(s, v + CLUTCH_OFFSET),
        steering_bits: bits_at(s, v + STEERING_OFFSET),
        rpm_bits: bits_at(s, v + ENGINE_RPM_OFFSET),
        max_rpm_bits: bits_at(s, v + ENGINE_MAX_RPM_OFFSET),
        gear: as_i32(le_u32_at(s, v + GEAR_OFFSET)) as i32,
        velocity_x_bits: bits_at(s, v + LOCAL_VELOCITY_OFFSET),
        velocity_y_bits: bits_at(s, v + LOCAL_VELOCITY_OFFSET + 8),
        velocity_z_bits: bits_at(s, v + LOCAL_VELOCITY_OFFSET + 16),
        acceleration_x_bits: bits_at(s, v + LOCAL_ACCELERATION_OFFSET),
        acceleration_z_bits: bits_at(s, v + LOCAL_ACCELERATION_OFFSET + 16),
        wheel_rotation_front_left_bits: bits_at(s, wheel_rotation_offset(v, 0)),
        wheel_rotation_front_right_bits: bits_at(s, wheel_rotation_offset(v, 1)),
        wheel_rotation_rear_left_bits: bits_at(s, wheel_rotation_offset(v, 2)),
        wheel_rotation_rear_right_bits: bits_at(s, wheel_rotation_offset(v, 3)),
        abs_active: s[v + ABS_ACTIVE_OFFSET] == 1,
        tc_active: s[v + TC_ACTIVE_OFFSET] == 1,
        abs_level: s[v + ABS_LEVEL_OFFSET],
        tc_level: s[v + TC_LEVEL_OFFSET],
        tc_slip_level: s[v + TC_SLIP_LEVEL_OFFSET],
        tc_cut_level: s[v + TC_CUT_LEVEL_OFFSET],
        pit_limiter_active: s[v + SPEED_LIMITER_ACTIVE_OFFSET] == 1,
    }
}

/// Offset of the vehicle record of player slot `index`.
pub open spec fn vehicle_offset(index: int) -> int {
    VEHICLES_OFFSET + index * VEHICLE_SIZE
}

/// What the parser returns for the snapshot `s`.
pub open spec fn snapshot_result(s: Seq<u8>) -> Result<SnapshotReading, LayoutError> {
    let active = s[ACTIVE_VEHICLES_OFFSET as int];
    let has_vehicle = s[PLAYER_HAS_VEHICLE_OFFSET as int];
    let index = s[PLAYER_VEHICLE_INDEX_OFFSET as int];
    if s.len() < SNAPSHOT_SIZE {
        Err(LayoutError::SnapshotTooSmall { len: s.len() as usize })
    } else if as_i32(le_u32_at(s, GAME_VERSION_OFFSET as int)) <= 0 {
        Ok(SnapshotReading::Offline)
    } else if active > MAX_VEHICLES {
        Err(LayoutError::TooManyVehicles { count: active })
    } else if has_vehicle > 1 {
        Err(LayoutError::InvalidBool { offset: PLAYER_HAS_VEHICLE_OFFSET, value: has_vehicle })
    } else if le_u32_at(s, TELEMETRY_UPDATE_EVENT_OFFSET as int) == 0 || has_vehicle == 0 {
        Ok(SnapshotReading::NoVehicle)
    } else if !(index < active && index < MAX_VEHICLES) {
        Err(LayoutError::InvalidPlayerIndex { index, active })
    } else {
        match vehicle_error(s, vehicle_offset(index as int)) {
            Some(e) => Err(e),
            None => Ok(SnapshotReading::Vehicle(vehicle_record(s, vehicle_offset(index as int), index))),
        }
    }
}

/// Every vehicle slot lies inside the snapshot; the last slot ends exactly at
/// its end.
pub proof fn lemma_vehicle_slots_fit(index: int)
    requires
        0 <= index < MAX_VEHICLES,
    ensures
        TELEMETRY_OFFSET < vehicle_offset(index),
        vehicle_offset(index) + VEHICLE_SIZE <= SNAPSHOT_SIZE,
        vehicle_offset(MAX_VEHICLES - 1) + VEHICLE_SIZE == SNAPSHOT_SIZE,
{
}

/// Each field of a vehicle reading is the value stored at its offset in the
/// player's record, which starts at byte `128_468 + 1_888 * index`: `f64` bit
/// patterns little-endian at the pedal, RPM, motion and wheel offsets, the gear
/// as a little-endian `i32` at 352, the ABS, TC and speed-limiter flags at 746,
/// 747 and 748, and the TC, TC slip, TC cut and ABS levels at 750, 752, 754 and
/// 756. The player index is the byte at 128_465.
pub proof fn lemma_vehicle_fields_at_offsets(s: Seq<u8>)
    requires
        snapshot_result(s) is Ok,
        snapshot_result(s)->Ok_0 is Vehicle,
    ensures
        ({
            let t = snapshot_result(s)->Ok_0->Vehicle_0;
            let v = 128_468 + 1_888 * (t.player_index as int);
            &&& t.player_index == s[128_465]
            &&& t.throttle_bits as int == le_u64_at(s, v + 388)
            &&& t.brake_bits as int == le_u64_at(s, v + 396)
            &&& t.steering_bits as int == le_u64_at(s, v + 404)
            &&& t.clutch_bits as int == le_u64_at(s, v + 412)
            &&& t.rpm_bits as int == le_u64_at(s, v + 356)
            &&& t.max_rpm_bits as int == le_u64_at(s, v + 532)
            &&& t.gear as int == as_i32(le_u32_at(s, v + 352))
            &&& t.velocity_x_bits as int == le_u64_at(s, v + 184)
            &&& t.velocity_y_bits as int == le_u64_at(s, v + 192)
            &&& t.velocity_z_bits as int == le_u64_at(s, v + 200)
            &&& t.acceleration_x_bits as int == le_u64_at(s, v + 208)
            &&& t.acceleration_z_bits as int == le_u64_at(s, v + 224)
            &&& t.wheel_rotation_front_left_bits as int == le_u64_at(s, v + 888)
            &&& t.wheel_rotation_front_right_bits as int == le_u64_at(s, v + 1_148)
            &&& t.wheel_rotation_rear_left_bits as int == le_u64_at(s, v + 1_408)
            &&& t.wheel_rotation_rear_right_bits as int == le_u64_at(s, v + 1_668)
            &&& t.abs_active == (s[v + 746] == 1)
            &&& t.tc_active == (s[v + 747] == 1)
            &&& t.pit_limiter_active == (s[v + 748] == 1)
            &&& t.tc_level == s[v + 750]
            &&& t.tc_slip_level == s[v + 752]
            &&& t.tc_cut_level == s[v + 754]
            &&& t.abs_level == s[v + 756]
        }),
{
    let t = snapshot_result(s)->Ok_0->Vehicle_0;
    let v = 128_468 + 1_888 * (t.player_index as int);
    assert forall|off: int| 0 <= off && off + 8 <= s.len() implies 0 <= #[trigger] le_u64_at(s, off)
        <= u64::MAX by {
        assert(0 <= le_u32_at(s, off) <= 0xffff_ffff);
        assert(0 <= le_u32_at(s, off + 4) <= 0xffff_ffff);
    }
    assert(v + 1_888 <= s.len());
}

/// A vehicle reading only comes from a complete snapshot with a positive game
/// version, updated telemetry, a player vehicle inside the active vehicles,
/// and field values within their ranges.
pub proof fn lemma_vehicle_reading_is_valid(s: Seq<u8>)
    requires
        snapshot_result(s) is Ok,
        snapshot_result(s)->Ok_0 is Vehicle,
    ensures
        ({
            let t = snapshot_result(s)->Ok_0->Vehicle_0;
            &&& s.len() >= SNAPSHOT_SIZE
            &&& as_i32(le_u32_at(s, GAME_VERSION_OFFSET as int)) > 0
            &&& le_u32_at(s, TELEMETRY_UPDATE_EVENT_OFFSET as int) != 0
            &&& s[PLAYER_HAS_VEHICLE_OFFSET as int] == 1
            &&& t.player_index == s[PLAYER_VEHICLE_INDEX_OFFSET as int]
            &&& t.player_index < s[ACTIVE_VEHICLES_OFFSET as int] <= MAX_VEHICLES
            &&& f64_finite(t.throttle_bits) && f64_in_unit(t.throttle_bits)
            &&& f64_finite(t.brake_bits) && f64_in_unit(t.brake_bits)
            &&& f64_finite(t.clutch_bits) && f64_in_unit(t.clutch_bits)
            &&& f64_finite(t.steering_bits) && f64_in_signed_unit(t.steering_bits)
            &&& f64_finite(t.rpm_bits) && f64_in_f32_range(t.rpm_bits)
            &&& f64_finite(t.max_rpm_bits) && f64_in_f32_range(t.max_rpm_bits)
            &&& f64_positive_as_f32(t.max_rpm_bits)
            &&& -1 <= t.gear <= 20
            &&& f64_finite(t.velocity_x_bits) && f64_finite(t.velocity_y_bits)
            &&& f64_finite(t.velocity_z_bits)
            &&& f64_finite(t.acceleration_x_bits) && f64_finite(t.acceleration_z_bits)
            &&& f64_finite(t.wheel_rotation_front_left_bits)
            &&& f64_finite(t.wheel_rotation_front_right_bits)
            &&& f64_finite(t.wheel_rotation_rear_left_bits)
            &&& f64_finite(t.wheel_rotation_rear_right_bits)
        }),
{
}

// ---------------------------------------------------------------------------
// Checked readers

/// The error of reading `width` bytes at `offset` from `len` bytes, if any.
pub open spec fn range_error(len: int, offset: usize, width: int) -> Option<LayoutError> {
    if offset + width > usize::MAX {
        Some(LayoutError::RangeOverflow { offset })
    } else if offset + width > len {
        Some(LayoutError::OutsideSnapshot { offset })
    } else {
        None
    }
}

/// The byte at `offset`.
pub fn read_u8(bytes: &[u8], offset: usize) -> (r: Result<u8, LayoutError>)
    ensures
        offset < bytes@.len() ==> r == Ok::<u8, LayoutError>(bytes@[offset as int]),
        offset >= bytes@.len() ==> r == Err::<u8, LayoutError>(
            LayoutError::OutsideSnapshot { offset },
        ),
{
    if offset < bytes.len() {
        Ok(bytes[offset])
    } else {
        Err(LayoutError::OutsideSnapshot { offset })
    }
}

/// The byte at `offset` read as a `bool`: only `0` and `1` are valid.
pub fn read_bool(bytes: &[u8], offset: usize) -> (r: Result<bool, LayoutError>)
    ensures
        offset >= bytes@.len() ==> r == Err::<bool, LayoutError>(
            LayoutError::OutsideSnapshot { offset },
        ),
        offset < bytes@.len() ==> r == (match bool_check(bytes@, offset as int) {
            Some(e) => Err(e),
            None => Ok(bytes@[offset as int] == 1),
        }),
{
    let value = read_u8(bytes, offset)?;
    if value == 0 {
        Ok(false)
    } else if value == 1 {
        Ok(true)
    } else {
        Err(LayoutError::InvalidBool { offset, value })
    }
}

/// The little-endian `u32` at `offset`.
pub fn read_u32(bytes: &[u8], offset: usize) -> (r: Result<u32, LayoutError>)
    ensures
        r == (match range_error(bytes@.len() as int, offset, 4) {
            Some(e) => Err(e),
            None => Ok(le_u32_at(bytes@, offset as int) as u32),
        }),
{
    let end = match offset.checked_add(4) {
        Some(end) => end,
        None => {
            return Err(LayoutError::RangeOverflow { offset });
        },
    };
    if end > bytes.len() {
        return Err(LayoutError::OutsideSnapshot { offset });
    }
    let b0 = bytes[offset] as u32;
    let b1 = bytes[offset + 1] as u32;
    let b2 = bytes[offset + 2] as u32;
    let b3 = bytes[offset + 3] as u32;
    Ok(b0 + b1 * 0x100 + b2 * 0x1_0000 + b3 * 0x100_0000)
}

/// The little-endian two's-complement `i32` at `offset`.
pub fn read_i32(bytes: &[u8], offset: usize) -> (r: Result<i32, LayoutError>)
    ensures
        r == (match range_error(bytes@.len() as int, offset, 4) {
            Some(e) => Err(e),
            None => Ok(as_i32(le_u32_at(bytes@, offset as int)) as i32),
        }),
{
    let u = read_u32(bytes, offset)?;
    if u >= 0x8000_0000 {
        Ok((u - 0x8000_0000) as i32 - 0x7fff_ffff - 1)
    } else {
        Ok(u as i32)
    }
}

/// The little-endian `u64` at `offset` (an `f64` bit pattern in this layout).
pub fn read_u64(bytes: &[u8], offset: usize) -> (r: Result<u64, LayoutError>)
    ensures
        r == (match range_error(bytes@.len() as int, offset, 8) {
            Some(e) => Err(e),
            None => Ok(bits_at(bytes@, offset as int)),
        }),
        range_error(bytes@.len() as int, offset, 8) is None ==> le_u64_at(bytes@, offset as int)
            <= u64::MAX,
{
    let end = match offset.checked_add(8) {
        Some(end) => end,
        None => {
            return Err(LayoutError::RangeOverflow { offset });
        },
    };
    if end > bytes.len() {
        return Err(LayoutError::OutsideSnapshot { offset });
    }
    let low = read_u32(bytes, offset)? as u64;
    let high = read_u32(bytes, offset + 4)? as u64;
    Ok(low + high * 0x1_0000_0000)
}

fn f64_exponent_of(bits: u64) -> (r: u64)
    ensures
        r == f64_exponent(bits),
{
    (bits / 0x10_0000_0000_0000) % 0x800
}

/// The finite `f64` bit pattern at `offset`.
fn read_finite_f64(bytes: &[u8], offset: usize, field: Field) -> (r: Result<u64, LayoutError>)
    requires
        offset + 8 <= bytes@.len() <= usize::MAX,
    ensures
        r == (match finite_check(bits_at(bytes@, offset as int), field) {
            Some(e) => Err(e),
            None => Ok(bits_at(bytes@, offset as int)),
        }),
{
    let bits = read_u64(bytes, offset)?;
    if f64_exponent_of(bits) == 0x7ff {
        return Err(LayoutError::NotFinite { field });
    }
    Ok(bits)
}

/// The `f64` at `offset`, which must lie in `0.0..=1.0`.
fn read_unit_f64(bytes: &[u8], offset: usize, field: Field) -> (r: Result<u64, LayoutError>)
    requires
        offset + 8 <= bytes@.len() <= usize::MAX,
    ensures
        r == (match unit_check(bits_at(bytes@, offset as int), field) {
            Some(e) => Err(e),
            None => Ok(bits_at(bytes@, offset as int)),
        }),
{
    let bits = read_finite_f64(bytes, offset, field)?;
    if !(bits == 0 || bits == F64_SIGN_BIT || (bits < F64_SIGN_BIT && bits <= F64_ONE_BITS)) {
        return Err(LayoutError::OutOfRange { field });
    }
    Ok(bits)
}

/// The `f64` at `offset`, which must lie in `-1.0..=1.0`.
fn read_signed_unit_f64(bytes: &[u8], offset: usize, field: Field) -> (r: Result<u64, LayoutError>)
    requires
        offset + 8 <= bytes@.len() <= usize::MAX,
    ensures
        r == (match signed_unit_check(bits_at(bytes@, offset as int), field) {
            Some(e) => Err(e),
            None => Ok(bits_at(bytes@, offset as int)),
        }),
{
    let bits = read_finite_f64(bytes, offset, field)?;
    if bits % F64_SIGN_BIT > F64_ONE_BITS {
        return Err(LayoutError::OutOfRange { field });
    }
    Ok(bits)
}

/// The `f64` at `offset`, which must lie in `0.0..=f32::MAX`.
fn read_non_negative_f64(bytes: &[u8], offset: usize, field: Field) -> (r: Result<
    u64,
    LayoutError,
>)
    requires
        offset + 8 <= bytes@.len() <= usize::MAX,
    ensures
        r == (match non_negative_check(bits_at(bytes@, offset as int), field) {
            Some(e) => Err(e),
            None => Ok(bits_at(bytes@, offset as int)),
        }),
{
    let bits = read_finite_f64(bytes, offset, field)?;
    if !(bits == 0 || bits == F64_SIGN_BIT || (bits < F64_SIGN_BIT && bits <= F32_MAX_AS_F64_BITS)) {
        return Err(LayoutError::OutOfRange { field });
    }
    Ok(bits)
}

/// The vehicle record at `v`, validated field by field in reading order.
#[verifier::rlimit(60)]
fn parse_vehicle(bytes: &[u8], v: usize, index: u8) -> (r: Result<SnapshotReading, LayoutError>)
    requires
        v + VEHICLE_SIZE <= bytes@.len() <= usize::MAX,
    ensures
        r == (match vehicle_error(bytes@, v as int) {
            Some(e) => Err(e),
            None => Ok(SnapshotReading::Vehicle(vehicle_record(bytes@, v as int, index))),
        }),
{
    let throttle_bits = read_unit_f64(bytes, v + THROTTLE_OFFSET, Field::Throttle)?;
    let brake_bits = read_unit_f64(bytes, v + BRAKE_OFFSET, Field::Brake)?;
    let clutch_bits = read_unit_f64(bytes, v + CLUTCH_OFFSET, Field::Clutch)?;
    let steering_bits = read_signed_unit_f64(bytes, v + STEERING_OFFSET, Field::Steering)?;
    let rpm_bits = read_non_negative_f64(bytes, v + ENGINE_RPM_OFFSET, Field::Rpm)?;
    let max_rpm_bits = read_non_negative_f64(bytes, v + ENGINE_MAX_RPM_OFFSET, Field::MaxRpm)?;
    if !(max_rpm_bits < F64_SIGN_BIT && max_rpm_bits > F32_ZERO_LIMIT_BITS) {
        return Err(LayoutError::MaxRpmNotPositive);
    }
    let gear = read_i32(bytes, v + GEAR_OFFSET)?;
    if !(-1 <= gear && gear <= 20) {
        return Err(LayoutError::GearOutOfRange { gear });
    }
    let velocity_x_bits = read_finite_f64(bytes, v + LOCAL_VELOCITY_OFFSET, Field::VelocityX)?;
    let velocity_y_bits = read_finite_f64(bytes, v + LOCAL_VELOCITY_OFFSET + 8, Field::VelocityY)?;
    let velocity_z_bits = read_finite_f64(bytes, v + LOCAL_VELOCITY_OFFSET + 16, Field::VelocityZ)?;
    let acceleration_x_bits = read_finite_f64(
        bytes,
        v + LOCAL_ACCELERATION_OFFSET,
        Field::AccelerationX,
    )?;
    let acceleration_z_bits = read_finite_f64(
        bytes,
        v + LOCAL_ACCELERATION_OFFSET + 16,
        Field::AccelerationZ,
    )?;
    let wheels = v + WHEELS_OFFSET + WHEEL_ROTATION_OFFSET;
    let wheel_rotation_front_left_bits = read_finite_f64(bytes, wheels, Field::WheelRotation)?;
    let wheel_rotation_front_right_bits = read_finite_f64(
        bytes,
        wheels + WHEEL_SIZE,
        Field::WheelRotation,
    )?;
    let wheel_rotation_rear_left_bits = read_finite_f64(
        bytes,
        wheels + 2 * WHEEL_SIZE,
        Field::WheelRotation,
    )?;
    let wheel_rotation_rear_right_bits = read_finite_f64(
        bytes,
        wheels + 3 * WHEEL_SIZE,
        Field::WheelRotation,
    )?;
    let abs_active = read_bool(bytes, v + ABS_ACTIVE_OFFSET)?;
    let tc_active = read_bool(bytes, v + TC_ACTIVE_OFFSET)?;
    let abs_level = read_u8(bytes, v + ABS_LEVEL_OFFSET)?;
    let tc_level = read_u8(bytes, v + TC_LEVEL_OFFSET)?;
    let tc_slip_level = read_u8(bytes, v + TC_SLIP_LEVEL_OFFSET)?;
    let tc_cut_level = read_u8(bytes, v + TC_CUT_LEVEL_OFFSET)?;
    let pit_limiter_active = read_bool(bytes, v + SPEED_LIMITER_ACTIVE_OFFSET)?;
    Ok(
        SnapshotReading::Vehicle(
            VehicleTelemetry {
                player_index: index,
                throttle_bits,
                brake_bits,
                clutch_bits,
                steering_bits,
                rpm_bits,
                max_rpm_bits,
                gear,
                velocity_x_bits,
                velocity_y_bits,
                velocity_z_bits,
                acceleration_x_bits,
                acceleration_z_bits,
                wheel_rotation_front_left_bits,
                wheel_rotation_front_right_bits,
                wheel_rotation_rear_left_bits,
                wheel_rotation_rear_right_bits,
                abs_active,
                tc_active,
                abs_level,
                tc_level,
                tc_slip_level,
                tc_cut_level,
                pit_limiter_active,
            },
        ),
    )
}

/// Parses a copied `LMU_Data` snapshot.
///
/// Rejects a snapshot shorter than [`SNAPSHOT_SIZE`], an active-vehicle count
/// above [`MAX_VEHICLES`], a player index outside the active vehicles, a
/// `bool` byte other than 0 or 1, a non-finite or out-of-range pedal, RPM or
/// steering value, a non-positive maximum RPM, a gear outside `-1..=20`, and
/// non-finite motion values.
pub fn parse_snapshot(bytes: &[u8]) -> (r: Result<SnapshotReading, LayoutError>)
    ensures
        r == snapshot_result(bytes@),
{
    if bytes.len() < SNAPSHOT_SIZE {
        return Err(LayoutError::SnapshotTooSmall { len: bytes.len() });
    }
    let game_version = read_i32(bytes, GAME_VERSION_OFFSET)?;
    if game_version <= 0 {
        return Ok(SnapshotReading::Offline);
    }
    let telemetry_updated = read_u32(bytes, TELEMETRY_UPDATE_EVENT_OFFSET)? != 0;
    let active_vehicles = read_u8(bytes, ACTIVE_VEHICLES_OFFSET)?;
    if active_vehicles as usize > MAX_VEHICLES {
        return Err(LayoutError::TooManyVehicles { count: active_vehicles });
    }
    let player_has_vehicle = read_bool(bytes, PLAYER_HAS_VEHICLE_OFFSET)?;
    if !telemetry_updated || !player_has_vehicle {
        return Ok(SnapshotReading::NoVehicle);
    }
    let player_index = read_u8(bytes, PLAYER_VEHICLE_INDEX_OFFSET)?;
    if !(player_index < active_vehicles && (player_index as usize) < MAX_VEHICLES) {
        return Err(LayoutError::InvalidPlayerIndex { index: player_index, active: active_vehicles });
    }
    let v = VEHICLES_OFFSET + player_index as usize * VEHICLE_SIZE;
    parse_vehicle(bytes, v, player_index)
}

} // verus!
