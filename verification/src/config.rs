//! Settings: the telemetry source, the output, the DSX target, the command
//! line overrides and the validation of the integer settings.

use std::path::PathBuf;

use vstd::prelude::*;
use vstd::string::StringExecFns;

use crate::effects::EffectLevels;
use crate::text::{trim_str, trimmed};

verus! {

#[verifier::external_type_specification]
#[verifier::external_body]
pub struct ExPathBuf(PathBuf);

/// Where telemetry comes from.
#[derive(Debug, Clone, Copy, PartialEq, Eq, Structural)]
pub enum TelemetrySource {
    Mock,
    Lmu,
}

impl TelemetrySource {
    /// The setting's name: `mock` or `lmu`.
    pub fn as_str(&self) -> (s: &'static str)
        ensures
            s@ == (match self {
                TelemetrySource::Mock => "mock"@,
                TelemetrySource::Lmu => "lmu"@,
            }),
    {
        match self {
            TelemetrySource::Mock => "mock",
            TelemetrySource::Lmu => "lmu",
        }
    }
}

/// Where trigger frames go.
#[derive(Debug, Clone, Copy, PartialEq, Eq, Structural)]
pub enum OutputKind {
    Null,
    DsxUdp,
}

impl OutputKind {
    /// The setting's name: `null` or `dsx_udp`.
    pub fn as_str(&self) -> (s: &'static str)
        ensures
            s@ == (match self {
                OutputKind::Null => "null"@,
                OutputKind::DsxUdp => "dsx_udp"@,
            }),
    {
        match self {
            OutputKind::Null => "null",
            OutputKind::DsxUdp => "dsx_udp",
        }
    }
}

/// The `[app]` settings.
#[derive(Debug, Clone, PartialEq, Eq)]
pub struct AppSection {
    pub tick_hz: u32,
    pub telemetry_source: TelemetrySource,
    pub output: OutputKind,
    pub log_level: String,
}

impl Default for AppSection {
    /// 60 Hz, mock telemetry, null output, `info` logging.
    fn default() -> (r: Self)
        ensures
            r.tick_hz == 60,
            r.telemetry_source == TelemetrySource::Mock,
            r.output == OutputKind::Null,
            r.log_level@ == "info"@,
    {
        AppSection {
            tick_hz: 60,
            telemetry_source: TelemetrySource::Mock,
            output: OutputKind::Null,
            log_level: String::from_str("info"),
        }
    }
}

/// The `[lmu]` settings.
#[derive(Debug, Clone, PartialEq, Eq)]
pub struct LmuConfig {
    pub shared_memory_name: String,
    pub header_path: String,
}

impl Default for LmuConfig {
    /// The `LMU_Data` mapping and no header path.
    fn default() -> (r: Self)
        ensures
            r.shared_memory_name@ == "LMU_Data"@,
            r.header_path@ == Seq::<char>::empty(),
    {
        LmuConfig {
            shared_memory_name: String::from_str("LMU_Data"),
            header_path: String::new(),
        }
    }
}

/// The `[dsx]` settings.
#[derive(Debug, Clone, PartialEq, Eq)]
pub struct DsxConfig {
    pub host: String,
    pub port: Option<u16>,
    pub controller_index: u8,
}

impl Default for DsxConfig {
    /// The local host, no fixed port, controller 0.
    fn default() -> (r: Self)
        ensures
            r.host@ == "127.0.0.1"@,
            r.port is None,
            r.controller_index == 0,
    {
        DsxConfig { host: String::from_str("127.0.0.1"), port: None, controller_index: 0 }
    }
}

/// Command-line options; each one given replaces the setting from the file.
#[derive(Debug)]
pub struct Cli {
    pub config: Option<PathBuf>,
    pub telemetry: Option<TelemetrySource>,
    pub output: Option<OutputKind>,
    pub tick_hz: Option<u32>,
    pub dsx_host: Option<String>,
    pub dsx_port: Option<u16>,
}

/// `option`'s value if it has one, else `current`.
pub open spec fn overridden<T>(option: Option<T>, current: T) -> T {
    match option {
        Some(value) => value,
        None => current,
    }
}

impl Cli {
    /// Replaces every setting for which an option was given.
    pub fn apply_overrides(&self, app: &mut AppSection, dsx: &mut DsxConfig)
        ensures
            final(app).telemetry_source == overridden(self.telemetry, old(app).telemetry_source),
            final(app).output == overridden(self.output, old(app).output),
            final(app).tick_hz == overridden(self.tick_hz, old(app).tick_hz),
            final(app).log_level == old(app).log_level,
            final(dsx).host@ == (match self.dsx_host {
                Some(host) => host@,
                None => old(dsx).host@,
            }),
            final(dsx).port == (match self.dsx_port {
                Some(port) => Some(port),
                None => old(dsx).port,
            }),
            final(dsx).controller_index == old(dsx).controller_index,
    {
        if let Some(source) = self.telemetry {
            app.telemetry_source = source;
        }
        if let Some(output) = self.output {
            app.output = output;
        }
        if let Some(tick_hz) = self.tick_hz {
            app.tick_hz = tick_hz;
        }
        if let Some(host) = &self.dsx_host {
            dsx.host = host.clone();
        }
        if let Some(port) = self.dsx_port {
            dsx.port = Some(port);
        }
    }
}

/// A force setting, which must lie in `0..=10`.
#[derive(Debug, Clone, Copy, PartialEq, Eq, Structural)]
pub enum ForceSetting {
    BrakeMinForce,
    BrakeMaxForce,
    AbsPulseForce,
    ThrottleMinForce,
    ThrottleMaxForce,
    TcPulseForce,
    VibrationForce,
}

impl ForceSetting {
    /// The setting's key in the settings file.
    pub fn name(&self) -> (s: &'static str)
        ensures
            s@ == force_setting_name(*self),
    {
        match self {
            ForceSetting::BrakeMinForce => "effects.brake.min_force",
            ForceSetting::BrakeMaxForce => "effects.brake.max_force",
            ForceSetting::AbsPulseForce => "effects.brake.abs_pulse_force",
            ForceSetting::ThrottleMinForce => "effects.throttle.min_force",
            ForceSetting::ThrottleMaxForce => "effects.throttle.max_force",
            ForceSetting::TcPulseForce => "effects.throttle.tc_pulse_force",
            ForceSetting::VibrationForce => "effects.rpm.vibration_force",
        }
    }
}

/// The settings-file key of each force setting.
pub open spec fn force_setting_name(setting: ForceSetting) -> Seq<char> {
    match setting {
        ForceSetting::BrakeMinForce => "effects.brake.min_force"@,
        ForceSetting::BrakeMaxForce => "effects.brake.max_force"@,
        ForceSetting::AbsPulseForce => "effects.brake.abs_pulse_force"@,
        ForceSetting::ThrottleMinForce => "effects.throttle.min_force"@,
        ForceSetting::ThrottleMaxForce => "effects.throttle.max_force"@,
        ForceSetting::TcPulseForce => "effects.throttle.tc_pulse_force"@,
        ForceSetting::VibrationForce => "effects.rpm.vibration_force"@,
    }
}

/// A fractional setting, which must lie in `0.0..=1.0`.
#[derive(Debug, Clone, Copy, PartialEq, Eq, Structural)]
pub enum FractionSetting {
    BrakeDeadzone,
    ThrottleDeadzone,
    RevLimitRatio,
    SmoothingAttack,
    SmoothingRelease,
}

impl FractionSetting {
    /// The setting's key in the settings file.
    pub fn name(&self) -> (s: &'static str)
        ensures
            s@ == fraction_setting_name(*self),
    {
        match self {
            FractionSetting::BrakeDeadzone => "effects.brake.deadzone",
            FractionSetting::ThrottleDeadzone => "effects.throttle.deadzone",
            FractionSetting::RevLimitRatio => "effects.rpm.rev_limit_ratio",
            FractionSetting::SmoothingAttack => "smoothing.attack",
            FractionSetting::SmoothingRelease => "smoothing.release",
        }
    }
}

/// The settings-file key of each fractional setting.
pub open spec fn fraction_setting_name(setting: FractionSetting) -> Seq<char> {
    match setting {
        FractionSetting::BrakeDeadzone => "effects.brake.deadzone"@,
        FractionSetting::ThrottleDeadzone => "effects.throttle.deadzone"@,
        FractionSetting::RevLimitRatio => "effects.rpm.rev_limit_ratio"@,
        FractionSetting::SmoothingAttack => "smoothing.attack"@,
        FractionSetting::SmoothingRelease => "smoothing.release"@,
    }
}

/// The fractional settings as `f32` bit patterns (`f32::to_bits`).
#[derive(Debug, Clone, Copy, PartialEq, Eq, Structural)]
pub struct FractionBits {
    pub brake_deadzone: u32,
    pub throttle_deadzone: u32,
    pub rev_limit_ratio: u32,
    pub smoothing_attack: u32,
    pub smoothing_release: u32,
}

/// Bit pattern of the `f32` value `1.0`.
pub const F32_ONE_BITS: u32 = 0x3F80_0000;

/// Bit pattern of the `f32` value `-0.0`.
pub const F32_NEGATIVE_ZERO_BITS: u32 = 0x8000_0000;

/// `0.0 <= x <= 1.0` for the `f32` with bit pattern `bits`: `±0.0`, or a
/// positive value not above one (positive values are ordered like their bit
/// patterns, and every NaN lies above one).
pub open spec fn f32_in_unit(bits: u32) -> bool {
    bits == 0 || bits == F32_NEGATIVE_ZERO_BITS || (bits < F32_NEGATIVE_ZERO_BITS && bits
        <= F32_ONE_BITS)
}

/// The error for a fractional setting outside `0.0..=1.0`, if any.
pub open spec fn fraction_error(setting: FractionSetting, bits: u32) -> Option<ConfigError> {
    if f32_in_unit(bits) {
        None
    } else {
        Some(ConfigError::FractionOutOfRange { setting })
    }
}

/// Accepts a fractional setting in `0.0..=1.0`.
pub fn validate_fraction(setting: FractionSetting, bits: u32) -> (r: Result<(), ConfigError>)
    ensures
        r == (match fraction_error(setting, bits) {
            Some(e) => Err(e),
            None => Ok(()),
        }),
{
    if bits == 0 || bits == F32_NEGATIVE_ZERO_BITS || (bits < F32_NEGATIVE_ZERO_BITS && bits
        <= F32_ONE_BITS) {
        Ok(())
    } else {
        Err(ConfigError::FractionOutOfRange { setting })
    }
}

/// Why the settings were rejected.
#[derive(Debug, Clone, Copy, PartialEq, Eq, Structural)]
pub enum ConfigError {
    ZeroTickRate,
    EmptyDsxHost,
    UnknownLogLevel,
    ForceOutOfRange { setting: ForceSetting, value: u8 },
    BrakeMinExceedsMax,
    ThrottleMinExceedsMax,
    FractionOutOfRange { setting: FractionSetting },
}

/// The accepted log levels.
pub open spec fn valid_log_level(level: Seq<char>) -> bool {
    level == "trace"@ || level == "debug"@ || level == "info"@ || level == "warn"@ || level
        == "error"@
}

fn is_valid_log_level(level: &String) -> (r: bool)
    ensures
        r == valid_log_level(level@),
{
    *level == String::from_str("trace") || *level == String::from_str("debug") || *level
        == String::from_str("info") || *level == String::from_str("warn") || *level
        == String::from_str("error")
}

/// The error for a force setting above 10, if any.
pub open spec fn force_error(setting: ForceSetting, value: u8) -> Option<ConfigError> {
    if value > 10 {
        Some(ConfigError::ForceOutOfRange { setting, value })
    } else {
        None
    }
}

/// Accepts a force setting in `0..=10`.
pub fn validate_force(setting: ForceSetting, value: u8) -> (r: Result<(), ConfigError>)
    ensures
        r == (match force_error(setting, value) {
            Some(e) => Err(e),
            None => Ok(()),
        }),
{
    if value > 10 {
        return Err(ConfigError::ForceOutOfRange { setting, value });
    }
    Ok(())
}

/// `first` if it reports an error, else `rest`.
pub open spec fn first_error(first: Option<ConfigError>, rest: Option<ConfigError>) -> Option<
    ConfigError,
> {
    if first is Some { first } else { rest }
}

/// The first invalid setting, in checking order.
pub open spec fn settings_error(
    app: AppSection,
    dsx: DsxConfig,
    levels: EffectLevels,
    fractions: FractionBits,
) -> Option<ConfigError> {
    settings_error_with_host(app, trimmed(dsx.host@), levels, fractions)
}

/// The first invalid setting, in checking order, where `trimmed_host` is the
/// DSX host without surrounding white space.
pub open spec fn settings_error_with_host(
    app: AppSection,
    trimmed_host: Seq<char>,
    levels: EffectLevels,
    fractions: FractionBits,
) -> Option<ConfigError> {
    if app.tick_hz == 0 {
        Some(ConfigError::ZeroTickRate)
    } else if trimmed_host.len() == 0 {
        Some(ConfigError::EmptyDsxHost)
    } else if !valid_log_level(app.log_level@) {
        Some(ConfigError::UnknownLogLevel)
    } else {
        first_error(force_error(ForceSetting::BrakeMinForce, levels.brake.min_force),
        first_error(force_error(ForceSetting::BrakeMaxForce, levels.brake.max_force),
        first_error(force_error(ForceSetting::AbsPulseForce, levels.brake.abs_pulse_force),
        first_error(force_error(ForceSetting::ThrottleMinForce, levels.throttle.min_force),
        first_error(force_error(ForceSetting::ThrottleMaxForce, levels.throttle.max_force),
        first_error(force_error(ForceSetting::TcPulseForce, levels.throttle.tc_pulse_force),
        first_error(force_error(ForceSetting::VibrationForce, levels.rpm.vibration_force),
        if levels.brake.min_force > levels.brake.max_force {
            Some(ConfigError::BrakeMinExceedsMax)
        } else if levels.throttle.min_force > levels.throttle.max_force {
            Some(ConfigError::ThrottleMinExceedsMax)
        } else {
            first_error(fraction_error(FractionSetting::BrakeDeadzone, fractions.brake_deadzone),
            first_error(fraction_error(FractionSetting::ThrottleDeadzone, fractions.throttle_deadzone),
            first_error(fraction_error(FractionSetting::RevLimitRatio, fractions.rev_limit_ratio),
            first_error(fraction_error(FractionSetting::SmoothingAttack, fractions.smoothing_attack),
            fraction_error(FractionSetting::SmoothingRelease, fractions.smoothing_release)))))
        })))))))
    }
}

/// Settings are accepted exactly when every one of them is valid: a positive
/// tick rate, a DSX host that is not blank, a known log level, every force
/// level at most 10 with each minimum at most its maximum, and every fractional
/// setting (both deadzones, the rev-limit ratio and both smoothing rates) in
/// `0.0..=1.0`.
pub proof fn lemma_accepted_exactly_when_valid(
    app: AppSection,
    trimmed_host: Seq<char>,
    levels: EffectLevels,
    fractions: FractionBits,
)
    ensures
        settings_error_with_host(app, trimmed_host, levels, fractions) is None <==> (app.tick_hz > 0 && trimmed_host.len() > 0 && valid_log_level(app.log_level@)
            && levels.brake.min_force <= 10 && levels.brake.max_force <= 10
            && levels.brake.abs_pulse_force <= 10 && levels.throttle.min_force <= 10
            && levels.throttle.max_force <= 10 && levels.throttle.tc_pulse_force <= 10
            && levels.rpm.vibration_force <= 10
            && levels.brake.min_force <= levels.brake.max_force
            && levels.throttle.min_force <= levels.throttle.max_force
            && f32_in_unit(fractions.brake_deadzone) && f32_in_unit(fractions.throttle_deadzone)
            && f32_in_unit(fractions.rev_limit_ratio) && f32_in_unit(fractions.smoothing_attack)
            && f32_in_unit(fractions.smoothing_release)),
{
}

/// Checks the tick rate, the DSX host, the log level, the force settings and
/// the fractional settings, and reports the first that is invalid.
pub fn validate_settings(
    app: &AppSection,
    dsx: &DsxConfig,
    levels: &EffectLevels,
    fractions: &FractionBits,
) -> (r: Result<(), ConfigError>)
    ensures
        r == (match settings_error(*app, *dsx, *levels, *fractions) {
            Some(e) => Err(e),
            None => Ok(()),
        }),
        r is Ok <==> (app.tick_hz > 0 && trimmed(dsx.host@).len() > 0 && valid_log_level(app.log_level@)
            && levels.brake.min_force <= 10 && levels.brake.max_force <= 10
            && levels.brake.abs_pulse_force <= 10 && levels.throttle.min_force <= 10
            && levels.throttle.max_force <= 10 && levels.throttle.tc_pulse_force <= 10
            && levels.rpm.vibration_force <= 10
            && levels.brake.min_force <= levels.brake.max_force
            && levels.throttle.min_force <= levels.throttle.max_force
            && f32_in_unit(fractions.brake_deadzone) && f32_in_unit(fractions.throttle_deadzone)
            && f32_in_unit(fractions.rev_limit_ratio) && f32_in_unit(fractions.smoothing_attack)
            && f32_in_unit(fractions.smoothing_release)),
{
    validate_settings_with_host(app, trim_str(dsx.host.as_str()), levels, fractions)
}

/// [`validate_settings`] for a DSX host that has already been trimmed of
/// surrounding white space.
pub fn validate_settings_with_host(
    app: &AppSection,
    trimmed_host: &str,
    levels: &EffectLevels,
    fractions: &FractionBits,
) -> (r: Result<(), ConfigError>)
    ensures
        r == (match settings_error_with_host(*app, trimmed_host@, *levels, *fractions) {
            Some(e) => Err(e),
            None => Ok(()),
        }),
        r is Ok <==> (app.tick_hz > 0 && trimmed_host@.len() > 0 && valid_log_level(app.log_level@)
            && levels.brake.min_force <= 10 && levels.brake.max_force <= 10
            && levels.brake.abs_pulse_force <= 10 && levels.throttle.min_force <= 10
            && levels.throttle.max_force <= 10 && levels.throttle.tc_pulse_force <= 10
            && levels.rpm.vibration_force <= 10
            && levels.brake.min_force <= levels.brake.max_force
            && levels.throttle.min_force <= levels.throttle.max_force
            && f32_in_unit(fractions.brake_deadzone) && f32_in_unit(fractions.throttle_deadzone)
            && f32_in_unit(fractions.rev_limit_ratio) && f32_in_unit(fractions.smoothing_attack)
            && f32_in_unit(fractions.smoothing_release)),
{
    if app.tick_hz == 0 {
        return Err(ConfigError::ZeroTickRate);
    }
    if trimmed_host.is_empty() {
        return Err(ConfigError::EmptyDsxHost);
    }
    if !is_valid_log_level(&app.log_level) {
        return Err(ConfigError::UnknownLogLevel);
    }
    validate_force(ForceSetting::BrakeMinForce, levels.brake.min_force)?;
    validate_force(ForceSetting::BrakeMaxForce, levels.brake.max_force)?;
    validate_force(ForceSetting::AbsPulseForce, levels.brake.abs_pulse_force)?;
    validate_force(ForceSetting::ThrottleMinForce, levels.throttle.min_force)?;
    validate_force(ForceSetting::ThrottleMaxForce, levels.throttle.max_force)?;
    validate_force(ForceSetting::TcPulseForce, levels.throttle.tc_pulse_force)?;
    validate_force(ForceSetting::VibrationForce, levels.rpm.vibration_force)?;
    if levels.brake.min_force > levels.brake.max_force {
        return Err(ConfigError::BrakeMinExceedsMax);
    }
    if levels.throttle.min_force > levels.throttle.max_force {
        return Err(ConfigError::ThrottleMinExceedsMax);
    }
    validate_fraction(FractionSetting::BrakeDeadzone, fractions.brake_deadzone)?;
    validate_fraction(FractionSetting::ThrottleDeadzone, fractions.throttle_deadzone)?;
    validate_fraction(FractionSetting::RevLimitRatio, fractions.rev_limit_ratio)?;
    validate_fraction(FractionSetting::SmoothingAttack, fractions.smoothing_attack)?;
    validate_fraction(FractionSetting::SmoothingRelease, fractions.smoothing_release)?;
    Ok(())
}

} // verus!
