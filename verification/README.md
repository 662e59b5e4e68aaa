# LMU DualSense adaptive-trigger bridge

Reads Le Mans Ultimate telemetry from the `LMU_Data` shared memory and drives
the DualSense adaptive triggers through Steam DSX UDP v2 packets.

## Layout

- `src/` — the verified library (Verus):
  - `telemetry/lmu_layout.rs`: the checked parser of the shared-memory
    snapshot (sizes, vehicle count, player index, `bool` bytes, numeric ranges
    checked on IEEE-754 bit patterns);
  - `telemetry/link.rs`: which connection and vehicle changes are announced;
  - `telemetry/mock.rs`: the schedule of the mock scenario;
  - `effects/`: the trigger effects and their priorities (L2: ABS pulse, brake
    resistance, normal; R2: rev-limit vibration, TC pulse, throttle resistance,
    normal), with every level in `0..=10`;
  - `output/`: the output interface, the null output, the DSX packet encoder
    and the DSX port choice;
  - `config.rs`: settings, command-line overrides and their validation;
  - `util/rate_limiter.rs`: at most one action per interval.
- `app/` — the program: command line, settings file, Win32 shared memory, UDP,
  logging, and the floating-point pedal curves, smoothing and wheel-lock
  estimate.
- `tests/` — tests of the library.
