//! The ducking engine: one tick of the polling loop consumes the
//! microphone level reading, feeds the simulated noise gate and the reason
//! aggregator, advances the duck/unduck transition machine by at most one
//! table step, and returns the routing writes that the fired step demands.
//!
//! The transition machine is specified by [`machine_next`]: a pure function
//! from the machine snapshot, the aggregated trigger signal and the tick
//! interval to the next snapshot and the optional emission.  The exec code
//! is proved to follow it exactly.

use vstd::prelude::*;

use crate::calculator::{DuckPhase, DuckingCalculator};
use crate::channels::DuckingInput;
use crate::config::{DuckingConfig, MAX_ROUTE_VOLUME, MAX_TIME_MS};
use crate::gate::{gate_next, gate_output, GateParams, SimulatedNoiseGate, DB_LIMIT, MIC_DB_MAX};
use crate::routing::{plan_route_writes, planned_writes, RouteWrite};

verus! {

/// A snapshot of the transition machine: the phase, the two table cursors
/// and the two wait accumulators.
#[derive(Clone, Copy, Debug, PartialEq, Eq, Structural)]
pub struct MachineState {
    pub phase: DuckPhase,
    /// Next duck step to emit; equals the table length once it is walked.
    pub duck_step_index: usize,
    /// Next unduck step to emit; equals the table length once it is walked.
    pub unduck_step_index: usize,
    /// Time accumulated toward the wait of the pending duck step.
    pub elapsed_in_duck_ms: u64,
    /// Time accumulated toward the wait of the pending unduck step.
    pub elapsed_in_unduck_ms: u64,
}

/// What one tick hands back to the caller: the volume of the step that
/// fired, if any, and the routing writes it requires.
#[derive(Debug)]
pub struct TickOutput {
    pub emitted: Option<u8>,
    pub writes: Vec<RouteWrite>,
}

/// The ducking engine: configuration snapshot plus the runtime state it
/// owns exclusively.  All hardware traffic stays with the caller.
#[derive(Debug)]
pub struct AudioDucker {
    /// The active configuration, replaced wholesale by [`Self::load`].
    pub config: DuckingConfig,
    /// The noise gate's tuning, replaced together with the configuration.
    pub gate_params: GateParams,
    /// The fixed interval at which the caller invokes [`Self::on_tick`].
    pub tick_interval_ms: u64,
    /// Active reasons and transition phase.
    pub ducking_calc: DuckingCalculator,
    /// Envelope-follower memory of the simulated noise gate.
    pub noise_gate: SimulatedNoiseGate,
    pub duck_step_index: usize,
    pub unduck_step_index: usize,
    pub elapsed_in_duck_ms: u64,
    pub elapsed_in_unduck_ms: u64,
}

/// The wait that must elapse before duck step `i` may fire: the attack
/// dwell for the first step, the previous step's wait time after that.
pub open spec fn duck_wait_ms(cfg: DuckingConfig, i: int) -> u64 {
    if i == 0 {
        cfg.attack_time_ms
    } else {
        cfg.duck_steps@[i - 1].wait_time_ms
    }
}

/// The wait that must elapse before unduck step `i` may fire.
pub open spec fn unduck_wait_ms(cfg: DuckingConfig, i: int) -> u64 {
    if i == 0 {
        cfg.release_time_ms
    } else {
        cfg.unduck_steps@[i - 1].wait_time_ms
    }
}

/// The machine state of a freshly loaded engine.
pub open spec fn idle_machine() -> MachineState {
    MachineState {
        phase: DuckPhase::Idle,
        duck_step_index: 0,
        unduck_step_index: 0,
        elapsed_in_duck_ms: 0,
        elapsed_in_unduck_ms: 0,
    }
}

/// The snapshot a duck entry starts from: both cursors and both
/// accumulators reset, phase already walking the duck table.
pub open spec fn duck_entry() -> MachineState {
    MachineState {
        phase: DuckPhase::EnteringDuck,
        duck_step_index: 0,
        unduck_step_index: 0,
        elapsed_in_duck_ms: 0,
        elapsed_in_unduck_ms: 0,
    }
}

/// The snapshot an unduck entry starts from.
pub open spec fn unduck_entry() -> MachineState {
    MachineState {
        phase: DuckPhase::EnteringUnduck,
        duck_step_index: 0,
        unduck_step_index: 0,
        elapsed_in_duck_ms: 0,
        elapsed_in_unduck_ms: 0,
    }
}

/// A machine snapshot is well formed relative to the configuration: the
/// cursors stay within their tables, the running direction's accumulator
/// stays within the pending wait, and the opposite direction is fully
/// reset.  In `Idle` the unduck cursor is either untouched or parked at the
/// table length by a completed recovery.
pub open spec fn machine_wf(cfg: DuckingConfig, m: MachineState) -> bool {
    &&& m.duck_step_index <= cfg.duck_steps@.len()
    &&& m.unduck_step_index <= cfg.unduck_steps@.len()
    &&& match m.phase {
        DuckPhase::Idle => {
            &&& m.duck_step_index == 0
            &&& m.elapsed_in_duck_ms == 0
            &&& m.elapsed_in_unduck_ms == 0
            &&& (m.unduck_step_index == 0 || m.unduck_step_index == cfg.unduck_steps@.len())
        },
        DuckPhase::EnteringDuck => {
            &&& m.duck_step_index < cfg.duck_steps@.len()
            &&& m.elapsed_in_duck_ms <= duck_wait_ms(cfg, m.duck_step_index as int)
            &&& m.unduck_step_index == 0
            &&& m.elapsed_in_unduck_ms == 0
        },
        DuckPhase::Ducked => {
            &&& cfg.duck_steps@.len() > 0
            &&& m.duck_step_index == cfg.duck_steps@.len()
            &&& m.elapsed_in_duck_ms == 0
            &&& m.unduck_step_index == 0
            &&& m.elapsed_in_unduck_ms == 0
        },
        DuckPhase::EnteringUnduck => {
            &&& m.unduck_step_index < cfg.unduck_steps@.len()
            &&& m.elapsed_in_unduck_ms <= unduck_wait_ms(cfg, m.unduck_step_index as int)
            &&& m.duck_step_index == 0
            &&& m.elapsed_in_duck_ms == 0
        },
    }
}

/// One tick of a running duck walk: the accumulator grows by the tick
/// interval, and when it reaches the pending step's wait, that step is
/// emitted, the cursor advances, the accumulator and the whole unduck side
/// reset, and the phase settles to `Ducked` once the table is exhausted.
pub open spec fn duck_progress(cfg: DuckingConfig, m: MachineState, tick_ms: u64) -> (
    MachineState,
    Option<u8>,
) {
    let i = m.duck_step_index as int;
    if m.elapsed_in_duck_ms + tick_ms >= duck_wait_ms(cfg, i) {
        let phase = if i + 1 == cfg.duck_steps@.len() {
            DuckPhase::Ducked
        } else {
            DuckPhase::EnteringDuck
        };
        (
            MachineState {
                phase,
                duck_step_index: (m.duck_step_index + 1) as usize,
                unduck_step_index: 0,
                elapsed_in_duck_ms: 0,
                elapsed_in_unduck_ms: 0,
            },
            Some(cfg.duck_steps@[i].route_volume),
        )
    } else {
        (
            MachineState {
                phase: m.phase,
                duck_step_index: m.duck_step_index,
                unduck_step_index: m.unduck_step_index,
                elapsed_in_duck_ms: (m.elapsed_in_duck_ms + tick_ms) as u64,
                elapsed_in_unduck_ms: m.elapsed_in_unduck_ms,
            },
            None,
        )
    }
}

/// One tick of a running unduck walk; the mirror of [`duck_progress`],
/// returning to `Idle` once the table is exhausted.
pub open spec fn unduck_progress(cfg: DuckingConfig, m: MachineState, tick_ms: u64) -> (
    MachineState,
    Option<u8>,
) {
    let i = m.unduck_step_index as int;
    if m.elapsed_in_unduck_ms + tick_ms >= unduck_wait_ms(cfg, i) {
        let phase = if i + 1 == cfg.unduck_steps@.len() {
            DuckPhase::Idle
        } else {
            DuckPhase::EnteringUnduck
        };
        (
            MachineState {
                phase,
                duck_step_index: 0,
                unduck_step_index: (m.unduck_step_index + 1) as usize,
                elapsed_in_duck_ms: 0,
                elapsed_in_unduck_ms: 0,
            },
            Some(cfg.unduck_steps@[i].route_volume),
        )
    } else {
        (
            MachineState {
                phase: m.phase,
                duck_step_index: m.duck_step_index,
                unduck_step_index: m.unduck_step_index,
                elapsed_in_duck_ms: m.elapsed_in_duck_ms,
                elapsed_in_unduck_ms: (m.elapsed_in_unduck_ms + tick_ms) as u64,
            },
            None,
        )
    }
}

/// The transition machine, one tick: the phase and the aggregated trigger
/// signal select at most one branch.  A request while idle or recovering
/// begins a duck entry from a fully reset snapshot; a lapsed request while
/// ducking begins an unduck entry likewise; a running walk continues; the
/// remaining combinations stutter.
pub open spec fn machine_next(
    cfg: DuckingConfig,
    m: MachineState,
    requesting: bool,
    tick_ms: u64,
) -> (MachineState, Option<u8>) {
    if requesting {
        match m.phase {
            DuckPhase::Idle => duck_progress(cfg, duck_entry(), tick_ms),
            DuckPhase::EnteringUnduck => duck_progress(cfg, duck_entry(), tick_ms),
            DuckPhase::EnteringDuck => duck_progress(cfg, m, tick_ms),
            DuckPhase::Ducked => (m, None),
        }
    } else {
        match m.phase {
            DuckPhase::EnteringDuck => unduck_progress(cfg, unduck_entry(), tick_ms),
            DuckPhase::Ducked => unduck_progress(cfg, unduck_entry(), tick_ms),
            DuckPhase::EnteringUnduck => unduck_progress(cfg, m, tick_ms),
            DuckPhase::Idle => (m, None),
        }
    }
}

/// The emission a `(fired, volume)` pair stands for.
pub open spec fn emitted_of(r: (bool, u8)) -> Option<u8> {
    if r.0 {
        Some(r.1)
    } else {
        None
    }
}

impl AudioDucker {
    /// The machine snapshot of this engine.
    pub open spec fn machine(self) -> MachineState {
        MachineState {
            phase: self.ducking_calc.phase,
            duck_step_index: self.duck_step_index,
            unduck_step_index: self.unduck_step_index,
            elapsed_in_duck_ms: self.elapsed_in_duck_ms,
            elapsed_in_unduck_ms: self.elapsed_in_unduck_ms,
        }
    }

    /// The engine's invariant: configuration, gate tuning, tick interval,
    /// reason list, gate memory and machine snapshot are all well formed.
    pub open spec fn wf(self) -> bool {
        &&& self.config.wf()
        &&& self.gate_params.wf()
        &&& 1 <= self.tick_interval_ms <= MAX_TIME_MS
        &&& self.ducking_calc.wf()
        &&& self.noise_gate.wf(self.gate_params)
        &&& machine_wf(self.config, self.machine())
    }

    /// A fresh engine with ducking disabled, ticked at the given interval.
    pub fn new(tick_interval_ms: u64) -> (d: AudioDucker)
        requires
            1 <= tick_interval_ms <= MAX_TIME_MS,
        ensures
            d.wf(),
            d.tick_interval_ms == tick_interval_ms,
            !d.config.enabled,
            d.machine() == idle_machine(),
            !d.ducking_calc.spec_requesting(),
            d.noise_gate == SimulatedNoiseGate::spec_initial(),
    {
        AudioDucker {
            config: DuckingConfig::disabled(),
            gate_params: GateParams { threshold_db: MIC_DB_MAX, attack_ms: 1, release_ms: 0 },
            tick_interval_ms,
            ducking_calc: DuckingCalculator::new(),
            noise_gate: SimulatedNoiseGate::initial(),
            duck_step_index: 0,
            unduck_step_index: 0,
            elapsed_in_duck_ms: 0,
            elapsed_in_unduck_ms: 0,
        }
    }

    /// Replaces the configuration and the noise gate tuning, and resets the
    /// runtime state: idle phase, cleared reasons, cursors, accumulators
    /// and gate memory.
    pub fn load(&mut self, config: DuckingConfig, gate_params: GateParams)
        requires
            config.wf(),
            gate_params.wf(),
            1 <= old(self).tick_interval_ms <= MAX_TIME_MS,
        ensures
            final(self).wf(),
            final(self).config == config,
            final(self).gate_params == gate_params,
            final(self).tick_interval_ms == old(self).tick_interval_ms,
            final(self).machine() == idle_machine(),
            !final(self).ducking_calc.spec_requesting(),
            final(self).noise_gate == SimulatedNoiseGate::spec_initial(),
    {
        self.config = config;
        self.gate_params = gate_params;
        self.ducking_calc = DuckingCalculator::new();
        self.noise_gate = SimulatedNoiseGate::initial();
        self.duck_step_index = 0;
        self.unduck_step_index = 0;
        self.elapsed_in_duck_ms = 0;
        self.elapsed_in_unduck_ms = 0;
    }

    /// Whether any trigger source participates in ducking.
    pub fn is_ducker_active(&self) -> (b: bool)
        ensures
            b == (self.config.input_sources@.len() > 0),
    {
        self.config.input_sources.len() > 0
    }

    /// Whether the microphone is a configured trigger source.
    fn mic_source_enabled(&self) -> (b: bool)
        ensures
            b == self.config.input_sources@.contains(DuckingInput::Mic),
    {
        let n = self.config.input_sources.len();
        let mut k: usize = 0;
        while k < n
            invariant
                n == self.config.input_sources@.len(),
                k <= n,
                forall|i: int| 0 <= i < k ==> self.config.input_sources@[i] != DuckingInput::Mic,
            decreases n - k,
        {
            if self.config.input_sources[k] == DuckingInput::Mic {
                proof {
                    assert(self.config.input_sources@[k as int] == DuckingInput::Mic);
                }
                return true;
            }
            k += 1;
        }
        false
    }

    /// Feeds one raw microphone reading through the noise gate and decides
    /// whether the microphone is triggering: its gated output, not the raw
    /// input, is compared against the nominal threshold.
    pub fn handle_mic_calculations(&mut self, db: i64, mute_active: bool) -> (r: (
        DuckingInput,
        bool,
    ))
        requires
            old(self).wf(),
            -DB_LIMIT <= db <= DB_LIMIT,
        ensures
            final(self).wf(),
            final(self).config == old(self).config,
            final(self).gate_params == old(self).gate_params,
            final(self).tick_interval_ms == old(self).tick_interval_ms,
            final(self).ducking_calc == old(self).ducking_calc,
            final(self).machine() == old(self).machine(),
            final(self).noise_gate == gate_next(
                old(self).gate_params,
                old(self).noise_gate,
                db,
                old(self).tick_interval_ms,
                mute_active,
            ),
            r.0 == DuckingInput::Mic,
            r.1 == (gate_output(
                old(self).gate_params,
                old(self).noise_gate,
                db,
                old(self).tick_interval_ms,
                mute_active,
            ) >= old(self).gate_params.threshold_db),
    {
        let gated = self.noise_gate.evaluate(&self.gate_params, db, self.tick_interval_ms, mute_active);
        (DuckingInput::Mic, gated >= self.gate_params.threshold_db)
    }

    /// Advances one direction's wait accumulator by the tick interval and
    /// reports whether it has reached the given wait time.
    pub fn update_check_time(&mut self, duck: bool, time: u64) -> (reached: bool)
        requires
            old(self).tick_interval_ms <= MAX_TIME_MS,
            time <= MAX_TIME_MS,
            duck ==> old(self).elapsed_in_duck_ms <= time,
            !duck ==> old(self).elapsed_in_unduck_ms <= time,
        ensures
            final(self).config == old(self).config,
            final(self).gate_params == old(self).gate_params,
            final(self).tick_interval_ms == old(self).tick_interval_ms,
            final(self).ducking_calc == old(self).ducking_calc,
            final(self).noise_gate == old(self).noise_gate,
            final(self).duck_step_index == old(self).duck_step_index,
            final(self).unduck_step_index == old(self).unduck_step_index,
            duck ==> {
                &&& final(self).elapsed_in_duck_ms == old(self).elapsed_in_duck_ms
                    + old(self).tick_interval_ms
                &&& final(self).elapsed_in_unduck_ms == old(self).elapsed_in_unduck_ms
                &&& reached == (final(self).elapsed_in_duck_ms >= time)
            },
            !duck ==> {
                &&& final(self).elapsed_in_unduck_ms == old(self).elapsed_in_unduck_ms
                    + old(self).tick_interval_ms
                &&& final(self).elapsed_in_duck_ms == old(self).elapsed_in_duck_ms
                &&& reached == (final(self).elapsed_in_unduck_ms >= time)
            },
    {
        if duck {
            self.elapsed_in_duck_ms = self.elapsed_in_duck_ms + self.tick_interval_ms;
            self.elapsed_in_duck_ms >= time
        } else {
            self.elapsed_in_unduck_ms = self.elapsed_in_unduck_ms + self.tick_interval_ms;
            self.elapsed_in_unduck_ms >= time
        }
    }

    /// One tick of the walk that is already running in the given
    /// direction: waits out the pending step's dwell and emits it when the
    /// accumulated time reaches it.
    pub fn handle_other(&mut self, duck: bool) -> (r: (bool, u8))
        requires
            old(self).wf(),
            duck ==> old(self).ducking_calc.phase is EnteringDuck,
            !duck ==> old(self).ducking_calc.phase is EnteringUnduck,
        ensures
            final(self).wf(),
            final(self).config == old(self).config,
            final(self).gate_params == old(self).gate_params,
            final(self).tick_interval_ms == old(self).tick_interval_ms,
            final(self).noise_gate == old(self).noise_gate,
            final(self).ducking_calc.active_reasons == old(self).ducking_calc.active_reasons,
            duck ==> (final(self).machine(), emitted_of(r)) == duck_progress(
                old(self).config,
                old(self).machine(),
                old(self).tick_interval_ms,
            ),
            !duck ==> (final(self).machine(), emitted_of(r)) == unduck_progress(
                old(self).config,
                old(self).machine(),
                old(self).tick_interval_ms,
            ),
            r.1 <= MAX_ROUTE_VOLUME,
    {
        let wait_time = if duck {
            if self.duck_step_index == 0 {
                self.config.attack_time_ms
            } else {
                proof {
                    assert(self.config.duck_steps@[self.duck_step_index - 1].wf());
                }
                self.config.duck_steps[self.duck_step_index - 1].wait_time_ms
            }
        } else {
            if self.unduck_step_index == 0 {
                self.config.release_time_ms
            } else {
                proof {
                    assert(self.config.unduck_steps@[self.unduck_step_index - 1].wf());
                }
                self.config.unduck_steps[self.unduck_step_index - 1].wait_time_ms
            }
        };

        if !self.update_check_time(duck, wait_time) {
            return (false, 0);
        }

        let route_volume = if duck {
            proof {
                assert(self.config.duck_steps@[self.duck_step_index as int].wf());
            }
            let table_len = self.config.duck_steps.len();
            let volume = self.config.duck_steps[self.duck_step_index].route_volume;
            self.duck_step_index = self.duck_step_index + 1;
            self.elapsed_in_duck_ms = 0;
            self.unduck_step_index = 0;
            self.elapsed_in_unduck_ms = 0;
            if self.duck_step_index == table_len {
                self.ducking_calc.phase = DuckPhase::Ducked;
            }
            volume
        } else {
            proof {
                assert(self.config.unduck_steps@[self.unduck_step_index as int].wf());
            }
            let table_len = self.config.unduck_steps.len();
            let volume = self.config.unduck_steps[self.unduck_step_index].route_volume;
            self.unduck_step_index = self.unduck_step_index + 1;
            self.elapsed_in_unduck_ms = 0;
            self.duck_step_index = 0;
            self.elapsed_in_duck_ms = 0;
            if self.unduck_step_index == table_len {
                self.ducking_calc.phase = DuckPhase::Idle;
            }
            volume
        };

        (true, route_volume)
    }

    /// The switchover tick that begins a transition in the given direction:
    /// both cursors and both accumulators reset, the phase flips, and the
    /// new direction's first dwell already accumulates this tick.
    pub fn handle_first(&mut self, duck: bool) -> (r: (bool, u8))
        requires
            old(self).wf(),
            duck ==> old(self).config.duck_steps@.len() > 0,
            !duck ==> old(self).config.unduck_steps@.len() > 0,
        ensures
            final(self).wf(),
            final(self).config == old(self).config,
            final(self).gate_params == old(self).gate_params,
            final(self).tick_interval_ms == old(self).tick_interval_ms,
            final(self).noise_gate == old(self).noise_gate,
            final(self).ducking_calc.active_reasons == old(self).ducking_calc.active_reasons,
            duck ==> (final(self).machine(), emitted_of(r)) == duck_progress(
                old(self).config,
                duck_entry(),
                old(self).tick_interval_ms,
            ),
            !duck ==> (final(self).machine(), emitted_of(r)) == unduck_progress(
                old(self).config,
                unduck_entry(),
                old(self).tick_interval_ms,
            ),
            r.1 <= MAX_ROUTE_VOLUME,
    {
        self.ducking_calc.phase = if duck {
            DuckPhase::EnteringDuck
        } else {
            DuckPhase::EnteringUnduck
        };
        self.duck_step_index = 0;
        self.unduck_step_index = 0;
        self.elapsed_in_duck_ms = 0;
        self.elapsed_in_unduck_ms = 0;
        self.handle_other(duck)
    }

    /// One tick of the transition machine: picks the single branch the
    /// phase and the aggregated trigger signal allow, and returns the
    /// volume of the step that fired, if any.  An empty duck or unduck
    /// table disables ducking for the tick: no emission, no state change.
    pub fn handle_ducking_calculations(&mut self) -> (emitted: Option<u8>)
        requires
            old(self).wf(),
        ensures
            final(self).wf(),
            final(self).config == old(self).config,
            final(self).gate_params == old(self).gate_params,
            final(self).tick_interval_ms == old(self).tick_interval_ms,
            final(self).noise_gate == old(self).noise_gate,
            final(self).ducking_calc.active_reasons == old(self).ducking_calc.active_reasons,
            forall|x: DuckingInput|
                final(self).ducking_calc.spec_has_reason(x) == old(
                    self,
                ).ducking_calc.spec_has_reason(x),
            (old(self).config.duck_steps@.len() == 0 || old(self).config.unduck_steps@.len() == 0)
                ==> *final(self) == *old(self) && emitted is None,
            (old(self).config.duck_steps@.len() > 0 && old(self).config.unduck_steps@.len() > 0)
                ==> (final(self).machine(), emitted) == machine_next(
                    old(self).config,
                    old(self).machine(),
                    old(self).ducking_calc.spec_requesting(),
                    old(self).tick_interval_ms,
                ),
            emitted matches Some(v) ==> v <= MAX_ROUTE_VOLUME,
    {
        if self.config.duck_steps.len() == 0 || self.config.unduck_steps.len() == 0 {
            return None;
        }

        // The opposite direction's accumulator is held at zero while it is
        // not running; under the invariant both assignments are no-ops.
        if self.ducking_calc.need_duck_time_reset() {
            self.elapsed_in_duck_ms = 0;
        } else if self.ducking_calc.need_unduck_time_reset() {
            self.elapsed_in_unduck_ms = 0;
        }

        let duck_len = self.config.duck_steps.len();
        let unduck_len = self.config.unduck_steps.len();

        if self.ducking_calc.need_first_duck() {
            let (fired, volume) = self.handle_first(true);
            if fired {
                Some(volume)
            } else {
                None
            }
        } else if self.ducking_calc.need_other_duck(duck_len, self.duck_step_index) {
            let (fired, volume) = self.handle_other(true);
            if fired {
                Some(volume)
            } else {
                None
            }
        } else if self.ducking_calc.need_first_unduck() {
            let (fired, volume) = self.handle_first(false);
            if fired {
                Some(volume)
            } else {
                None
            }
        } else if self.ducking_calc.need_other_unduck(unduck_len, self.unduck_step_index) {
            let (fired, volume) = self.handle_other(false);
            if fired {
                Some(volume)
            } else {
                None
            }
        } else {
            None
        }
    }

    /// One tick of the whole engine.  The caller supplies the level reading
    /// it obtained from the hardware (`None` when the read failed: the noise gate
    /// and the reasons are then left as they were), and receives the
    /// routing writes the tick demands.
    pub fn on_tick(&mut self, mic_db: Option<i64>, mute_active: bool) -> (out: TickOutput)
        requires
            old(self).wf(),
            mic_db matches Some(db) ==> -DB_LIMIT <= db <= DB_LIMIT,
        ensures
            final(self).wf(),
            on_tick_post(*old(self), *final(self), mic_db, mute_active, out),
            out.emitted matches Some(v) ==> v <= MAX_ROUTE_VOLUME,
    {
        if !self.config.enabled || self.config.input_sources.len() == 0 {
            return TickOutput { emitted: None, writes: Vec::new() };
        }

        if self.mic_source_enabled() {
            if let Some(raw_db) = mic_db {
                let (source, triggering) = self.handle_mic_calculations(raw_db, mute_active);
                self.ducking_calc.handle_result(source, triggering);
            }
        }

        let emitted = self.handle_ducking_calculations();

        let writes = match emitted {
            Some(volume) => plan_route_writes(&self.config, volume),
            None => Vec::new(),
        };
        TickOutput { emitted, writes }
    }
}

/// How the engine after a tick relates to the engine before it.
///
/// With ducking disabled or no trigger source configured the tick is a
/// no-op.  Otherwise the noise gate and the reason set are updated by the
/// reading, when there is one and the microphone participates; the machine
/// then advances by [`machine_next`] under the *updated* trigger signal,
/// unless a transition table is empty, in which case it stutters; and the
/// output carries one routing write per configured cell exactly when a step
/// fired.
pub open spec fn on_tick_post(
    pre: AudioDucker,
    post: AudioDucker,
    mic_db: Option<i64>,
    mute_active: bool,
    out: TickOutput,
) -> bool {
    let cfg = pre.config;
    &&& post.config == cfg
    &&& post.gate_params == pre.gate_params
    &&& post.tick_interval_ms == pre.tick_interval_ms
    &&& (match out.emitted {
        Some(v) => out.writes@ == planned_writes(cfg, v),
        None => out.writes@.len() == 0,
    })
    &&& if !cfg.enabled || cfg.input_sources@.len() == 0 {
        post == pre && out.emitted is None
    } else {
        &&& gate_and_reasons_post(pre, post, mic_db, mute_active)
        &&& machine_post(pre, post, out.emitted)
    }
}

/// The noise gate and reason-set part of [`on_tick_post`]: with a reading and a
/// participating microphone, the noise gate advances one evaluation and the
/// microphone reason is present exactly when its gated output reaches the
/// threshold; without either, both are left untouched.
pub open spec fn gate_and_reasons_post(
    pre: AudioDucker,
    post: AudioDucker,
    mic_db: Option<i64>,
    mute_active: bool,
) -> bool {
    if pre.config.input_sources@.contains(DuckingInput::Mic) && mic_db is Some {
        let raw = mic_db->0;
        let triggering = gate_output(
            pre.gate_params,
            pre.noise_gate,
            raw,
            pre.tick_interval_ms,
            mute_active,
        ) >= pre.gate_params.threshold_db;
        &&& post.noise_gate == gate_next(
            pre.gate_params,
            pre.noise_gate,
            raw,
            pre.tick_interval_ms,
            mute_active,
        )
        &&& forall|x: DuckingInput|
            post.ducking_calc.spec_has_reason(x) == if x == DuckingInput::Mic {
                triggering
            } else {
                pre.ducking_calc.spec_has_reason(x)
            }
    } else {
        &&& post.noise_gate == pre.noise_gate
        &&& post.ducking_calc.active_reasons == pre.ducking_calc.active_reasons
    }
}

/// The machine part of [`on_tick_post`]: a stutter while a transition
/// table is empty, one step of [`machine_next`] otherwise, driven by the
/// trigger signal as updated this tick.
pub open spec fn machine_post(pre: AudioDucker, post: AudioDucker, emitted: Option<u8>) -> bool {
    let requesting = post.ducking_calc.spec_requesting();
    if pre.config.duck_steps@.len() == 0 || pre.config.unduck_steps@.len() == 0 {
        post.machine() == pre.machine() && emitted is None
    } else {
        (post.machine(), emitted) == machine_next(
            pre.config,
            pre.machine(),
            requesting,
            pre.tick_interval_ms,
        )
    }
}

} // verus!
