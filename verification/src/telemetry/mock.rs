//! Schedule of the mock telemetry scenario.
//!
//! The mock source cycles through seven stages, each lasting one second of
//! ticks. This module decides the stage and the position inside it; the
//! telemetry values of each stage are filled in by the caller.

use vstd::prelude::*;

verus! {

/// Number of stages in one cycle of the scenario.
pub const SCENARIO_COUNT: u64 = 7;

/// One stage of the mock scenario.
#[derive(Debug, Clone, Copy, PartialEq, Eq, Structural)]
pub enum MockStage {
    Idle,
    BrakeRamp,
    AbsPulse,
    ThrottleRamp,
    TcPulse,
    RevLimiter,
    GearChange,
}

/// Where a tick falls in the scenario.
#[derive(Debug, Clone, Copy, PartialEq, Eq, Structural)]
pub struct MockStep {
    pub stage: MockStage,
    /// Ticks since the stage began, in `0..ticks_per_stage`.
    pub stage_tick: u64,
    pub ticks_per_stage: u64,
}

/// The stage with number `n` in `0..7`.
pub open spec fn stage_of(n: int) -> MockStage {
    if n == 0 {
        MockStage::Idle
    } else if n == 1 {
        MockStage::BrakeRamp
    } else if n == 2 {
        MockStage::AbsPulse
    } else if n == 3 {
        MockStage::ThrottleRamp
    } else if n == 4 {
        MockStage::TcPulse
    } else if n == 5 {
        MockStage::RevLimiter
    } else {
        MockStage::GearChange
    }
}

/// Ticks per stage for a tick rate: one second, and at least one tick.
pub open spec fn ticks_per_stage(tick_hz: u32) -> int {
    if tick_hz == 0 { 1 } else { tick_hz as int }
}

/// The step of tick `tick` at tick rate `tick_hz`.
pub open spec fn step_of(tick_hz: u32, tick: int) -> MockStep {
    let per_stage = ticks_per_stage(tick_hz);
    MockStep {
        stage: stage_of((tick / per_stage) % SCENARIO_COUNT as int),
        stage_tick: (tick % per_stage) as u64,
        ticks_per_stage: per_stage as u64,
    }
}

/// The scenario repeats: a tick one full cycle later falls on the same step.
pub proof fn lemma_scenario_repeats(tick_hz: u32, tick: int)
    requires
        tick >= 0,
    ensures
        step_of(tick_hz, tick + SCENARIO_COUNT * ticks_per_stage(tick_hz)) == step_of(tick_hz, tick),
{
    let p = ticks_per_stage(tick_hz);
    let later = tick + 7 * p;
    assert(later / p == tick / p + 7 && later % p == tick % p) by (nonlinear_arith)
        requires
            p > 0,
            tick >= 0,
            later == tick + 7 * p,
    ;
    assert((tick / p + 7) % 7 == (tick / p) % 7) by (nonlinear_arith)
        requires
            tick / p >= 0,
    ;
}

/// Each stage lasts exactly `ticks_per_stage` ticks: stage `k` (counted from
/// the start, modulo the cycle) begins at tick `k * ticks_per_stage` and the
/// position inside it counts up from zero.
pub proof fn lemma_stage_boundaries(tick_hz: u32, k: int, offset: int)
    requires
        k >= 0,
        0 <= offset < ticks_per_stage(tick_hz),
    ensures
        step_of(tick_hz, k * ticks_per_stage(tick_hz) + offset).stage == stage_of(
            k % SCENARIO_COUNT as int,
        ),
        step_of(tick_hz, k * ticks_per_stage(tick_hz) + offset).stage_tick == offset,
{
    let p = ticks_per_stage(tick_hz);
    let t = k * p + offset;
    assert(t / p == k && t % p == offset) by (nonlinear_arith)
        requires
            p > 0,
            k >= 0,
            0 <= offset < p,
            t == k * p + offset,
    ;
}

/// Mock telemetry source: a tick counter walking through the scenario.
#[derive(Debug, Clone)]
pub struct MockTelemetryReader {
    tick_hz: u32,
    tick: u64,
}

impl MockTelemetryReader {
    /// The tick rate the scenario is paced for.
    pub closed spec fn rate(self) -> u32 {
        self.tick_hz
    }

    /// The next tick to be produced.
    pub closed spec fn position(self) -> u64 {
        self.tick
    }

    pub fn new(tick_hz: u32) -> (r: Self)
        ensures
            r.rate() == tick_hz,
            r.position() == 0,
    {
        MockTelemetryReader { tick_hz, tick: 0 }
    }

    /// The step of tick `tick`.
    pub fn step_at(&self, tick: u64) -> (r: MockStep)
        ensures
            r == step_of(self.rate(), tick as int),
    {
        let per_stage: u64 = if self.tick_hz == 0 { 1 } else { self.tick_hz as u64 };
        let n = (tick / per_stage) % SCENARIO_COUNT;
        let stage = if n == 0 {
            MockStage::Idle
        } else if n == 1 {
            MockStage::BrakeRamp
        } else if n == 2 {
            MockStage::AbsPulse
        } else if n == 3 {
            MockStage::ThrottleRamp
        } else if n == 4 {
            MockStage::TcPulse
        } else if n == 5 {
            MockStage::RevLimiter
        } else {
            MockStage::GearChange
        };
        MockStep { stage, stage_tick: tick % per_stage, ticks_per_stage: per_stage }
    }

    /// The step of the current tick; the counter then advances, wrapping at
    /// `u64::MAX`.
    pub fn next_step(&mut self) -> (r: MockStep)
        ensures
            r == step_of(old(self).rate(), old(self).position() as int),
            final(self).rate() == old(self).rate(),
            final(self).position() == (if old(self).position() == u64::MAX {
                0
            } else {
                old(self).position() + 1
            }),
    {
        let step = self.step_at(self.tick);
        self.tick = self.tick.wrapping_add(1);
        step
    }
}

} // verus!
