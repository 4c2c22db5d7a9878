//! Simulated noise gate: turns raw instantaneous level readings into a
//! smoothed level with attack/release ballistics, so that the ducking
//! trigger does not chatter on abrupt level changes.
//!
//! Decibel values are fixed-point: signed integers counting tenths of a
//! decibel, so `-722` stands for `-72.2 dB`.

use vstd::prelude::*;

use crate::config::MAX_TIME_MS;

verus! {

/// The noise gate's floor, in tenths of a decibel (`-72.2 dB`): the value reported
/// for a fully closed gate or a hard-muted source.
pub const MIC_DB_MAX: i64 = -722;

/// Largest magnitude, in tenths of a decibel, accepted for a raw reading, a
/// threshold, or stored as the noise gate's output.  Keeps the interpolation
/// arithmetic far from `i64` overflow.
pub const DB_LIMIT: i64 = 10_000;

/// The noise gate's tuning: threshold plus attack and release time constants.
#[derive(Clone, Copy, Debug, PartialEq, Eq, Structural)]
pub struct GateParams {
    /// Level at or above which the source counts as active, tenths of a
    /// decibel.
    pub threshold_db: i64,
    /// Time the signal must sit at/above the threshold before the noise gate is
    /// fully open, in milliseconds.
    pub attack_ms: u64,
    /// Time the signal must sit below the threshold before the noise gate snaps
    /// closed, in milliseconds.
    pub release_ms: u64,
}

/// The noise gate's envelope-follower memory, persisting across ticks.
#[derive(Clone, Copy, Debug, PartialEq, Eq, Structural)]
pub struct SimulatedNoiseGate {
    /// Time accumulated at/above the threshold, clamped to the attack time.
    pub attack_accumulator_ms: u64,
    /// Time accumulated below the threshold, clamped to the release time.
    pub release_accumulator_ms: u64,
    /// The output of the previous evaluation, held while the release timer
    /// runs.
    pub last_output_db: i64,
    /// Whether the release-completion edge has already fired since the
    /// signal last sat above the threshold.
    pub was_gated: bool,
}

impl GateParams {
    /// Parameters are well formed when the threshold is at least the floor
    /// and the time constants are bounded; a zero attack would divide by
    /// zero in the interpolation, so it is at least one millisecond.
    pub open spec fn wf(self) -> bool {
        &&& MIC_DB_MAX <= self.threshold_db <= DB_LIMIT
        &&& 1 <= self.attack_ms <= MAX_TIME_MS
        &&& self.release_ms <= MAX_TIME_MS
    }

    /// Runtime check of `wf`, for callers holding unverified input.
    pub fn is_wf(&self) -> (b: bool)
        ensures
            b == self.wf(),
    {
        MIC_DB_MAX <= self.threshold_db && self.threshold_db <= DB_LIMIT
            && 1 <= self.attack_ms && self.attack_ms <= MAX_TIME_MS
            && self.release_ms <= MAX_TIME_MS
    }
}

impl SimulatedNoiseGate {
    /// The noise gate state is well formed relative to its parameters: the
    /// accumulators respect their clamps and the held output is in range.
    pub open spec fn wf(self, p: GateParams) -> bool {
        &&& self.attack_accumulator_ms <= p.attack_ms
        &&& self.release_accumulator_ms <= p.release_ms
        &&& MIC_DB_MAX <= self.last_output_db <= DB_LIMIT
    }

    /// The state of a freshly loaded gate: zeroed accumulators, output held
    /// at the floor.
    pub open spec fn spec_initial() -> SimulatedNoiseGate {
        SimulatedNoiseGate {
            attack_accumulator_ms: 0,
            release_accumulator_ms: 0,
            last_output_db: MIC_DB_MAX,
            was_gated: false,
        }
    }

    /// Builds the freshly loaded gate state.
    pub fn initial() -> (g: SimulatedNoiseGate)
        ensures
            g == SimulatedNoiseGate::spec_initial(),
    {
        SimulatedNoiseGate {
            attack_accumulator_ms: 0,
            release_accumulator_ms: 0,
            last_output_db: MIC_DB_MAX,
            was_gated: false,
        }
    }

    /// Advances the noise gate by one tick and returns the smoothed output level.
    ///
    /// A hard-muted source short-circuits to the floor and leaves the state
    /// untouched.  Below the threshold the release timer runs and the output
    /// is held at the previous value until the timer completes, when it
    /// snaps to the floor once; at or above the threshold the attack timer
    /// runs and the output is interpolated from the floor toward the raw
    /// reading in proportion to the elapsed attack time.  An output that
    /// lands below the threshold is clamped to the floor.
    pub fn evaluate(&mut self, p: &GateParams, raw_db: i64, tick_ms: u64, mute_active: bool) -> (out: i64)
        requires
            p.wf(),
            old(self).wf(*p),
            -DB_LIMIT <= raw_db <= DB_LIMIT,
            tick_ms <= MAX_TIME_MS,
        ensures
            final(self).wf(*p),
            *final(self) == gate_next(*p, *old(self), raw_db, tick_ms, mute_active),
            out == gate_output(*p, *old(self), raw_db, tick_ms, mute_active),
            out >= MIC_DB_MAX,
            mute_active ==> out == MIC_DB_MAX,
    {
        if mute_active {
            return MIC_DB_MAX;
        }

        let output_db: i64;
        if raw_db < p.threshold_db {
            // Signal is below the threshold: run the release timer.
            let mut release = self.release_accumulator_ms + tick_ms;
            if release > p.release_ms {
                release = p.release_ms;
            }
            self.release_accumulator_ms = release;
            self.attack_accumulator_ms = 0;

            let mut held = self.last_output_db;
            if release >= p.release_ms && !self.was_gated {
                // Release just completed: snap to the floor, once.
                self.was_gated = true;
                held = MIC_DB_MAX;
            }
            output_db = if held < p.threshold_db { MIC_DB_MAX } else { held };
        } else {
            // Signal is at or above the threshold: run the attack timer.
            let mut attack = self.attack_accumulator_ms + tick_ms;
            if attack > p.attack_ms {
                attack = p.attack_ms;
            }
            self.attack_accumulator_ms = attack;
            self.release_accumulator_ms = 0;
            self.was_gated = false;

            let rise: u64 = (raw_db - MIC_DB_MAX) as u64;
            assert(rise * attack <= rise * p.attack_ms) by (nonlinear_arith)
                requires attack <= p.attack_ms,
            ;
            assert(rise * p.attack_ms <= (DB_LIMIT - MIC_DB_MAX) * MAX_TIME_MS) by (nonlinear_arith)
                requires
                    rise <= DB_LIMIT - MIC_DB_MAX,
                    p.attack_ms <= MAX_TIME_MS,
            ;
            let climb: u64 = rise * attack / p.attack_ms;
            assert(climb <= rise) by (nonlinear_arith)
                requires
                    climb == (rise as int) * (attack as int) / (p.attack_ms as int),
                    attack <= p.attack_ms,
                    1 <= p.attack_ms,
            ;
            let interpolated = MIC_DB_MAX + climb as i64;
            output_db = if interpolated < p.threshold_db { MIC_DB_MAX } else { interpolated };
        }

        self.last_output_db = output_db;
        output_db
    }
}

/// The interpolated attack-phase output: the floor moved toward `raw_db` in
/// proportion to the accumulated attack time.
pub open spec fn gate_interpolated(p: GateParams, attack_acc: u64, raw_db: i64) -> int {
    MIC_DB_MAX + (raw_db - MIC_DB_MAX) * attack_acc / (p.attack_ms as int)
}

/// The noise gate state after one evaluation.
pub open spec fn gate_next(
    p: GateParams,
    g: SimulatedNoiseGate,
    raw_db: i64,
    tick_ms: u64,
    mute_active: bool,
) -> SimulatedNoiseGate {
    if mute_active {
        g
    } else if raw_db < p.threshold_db {
        let release = if g.release_accumulator_ms + tick_ms > p.release_ms {
            p.release_ms as int
        } else {
            g.release_accumulator_ms + tick_ms
        };
        SimulatedNoiseGate {
            attack_accumulator_ms: 0,
            release_accumulator_ms: release as u64,
            last_output_db: gate_output(p, g, raw_db, tick_ms, mute_active) as i64,
            was_gated: g.was_gated || release >= p.release_ms,
        }
    } else {
        let attack = if g.attack_accumulator_ms + tick_ms > p.attack_ms {
            p.attack_ms as int
        } else {
            g.attack_accumulator_ms + tick_ms
        };
        SimulatedNoiseGate {
            attack_accumulator_ms: attack as u64,
            release_accumulator_ms: 0,
            last_output_db: gate_output(p, g, raw_db, tick_ms, mute_active) as i64,
            was_gated: false,
        }
    }
}

/// The smoothed output level of one evaluation.
pub open spec fn gate_output(
    p: GateParams,
    g: SimulatedNoiseGate,
    raw_db: i64,
    tick_ms: u64,
    mute_active: bool,
) -> int {
    if mute_active {
        MIC_DB_MAX as int
    } else if raw_db < p.threshold_db {
        let release = if g.release_accumulator_ms + tick_ms > p.release_ms {
            p.release_ms as int
        } else {
            g.release_accumulator_ms + tick_ms
        };
        let held = if release >= p.release_ms && !g.was_gated {
            MIC_DB_MAX as int
        } else {
            g.last_output_db as int
        };
        if held < p.threshold_db {
            MIC_DB_MAX as int
        } else {
            held
        }
    } else {
        let attack = if g.attack_accumulator_ms + tick_ms > p.attack_ms {
            p.attack_ms as int
        } else {
            g.attack_accumulator_ms + tick_ms
        };
        let interpolated = gate_interpolated(p, attack as u64, raw_db);
        if interpolated < p.threshold_db {
            MIC_DB_MAX as int
        } else {
            interpolated
        }
    }
}

} // verus!
