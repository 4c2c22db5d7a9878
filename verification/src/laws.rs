//! The engine's general guarantees, stated over the same specification
//! functions that the executable contracts use and proved once and for all.

use vstd::prelude::*;

use crate::config::{DuckingConfig, MAX_TIME_MS};
use crate::ducker::{
    duck_wait_ms, gate_and_reasons_post, machine_next, machine_wf, on_tick_post, unduck_wait_ms,
    AudioDucker, MachineState, TickOutput,
};
use crate::gate::{gate_interpolated, gate_output, GateParams, SimulatedNoiseGate, MIC_DB_MAX};

verus! {

/// At most one table step fires per tick: one tick advances at most one of
/// the two cursors, by at most one, and a volume is emitted exactly when a
/// cursor advances, so no step is ever skipped or doubled.
pub proof fn lemma_at_most_one_step(
    cfg: DuckingConfig,
    m: MachineState,
    requesting: bool,
    tick_ms: u64,
)
    requires
        machine_wf(cfg, m),
    ensures
        ({
            let (next, emitted) = machine_next(cfg, m, requesting, tick_ms);
            &&& next.duck_step_index <= m.duck_step_index + 1
            &&& next.unduck_step_index <= m.unduck_step_index + 1
            &&& !(next.duck_step_index > m.duck_step_index && next.unduck_step_index
                > m.unduck_step_index)
            &&& (emitted is Some) == (next.duck_step_index > m.duck_step_index
                || next.unduck_step_index > m.unduck_step_index)
        }),
{
    machine_next_cases(cfg, m, requesting, tick_ms);
    assert(cfg.duck_steps.len() == cfg.duck_steps@.len());
    assert(cfg.unduck_steps.len() == cfg.unduck_steps@.len());
}

/// Names the branch of [`machine_next`] that the phase and the trigger
/// signal select, so that callers reason from the matching progress
/// function directly.
proof fn machine_next_cases(cfg: DuckingConfig, m: MachineState, requesting: bool, tick_ms: u64)
    ensures
        ({
            let step = machine_next(cfg, m, requesting, tick_ms);
            &&& (requesting && (m.phase is Idle || m.phase is EnteringUnduck)) ==> step
                == crate::ducker::duck_progress(cfg, crate::ducker::duck_entry(), tick_ms)
            &&& (requesting && m.phase is EnteringDuck) ==> step == crate::ducker::duck_progress(
                cfg,
                m,
                tick_ms,
            )
            &&& (requesting && m.phase is Ducked) ==> step == (m, None::<u8>)
            &&& (!requesting && (m.phase is EnteringDuck || m.phase is Ducked)) ==> step
                == crate::ducker::unduck_progress(cfg, crate::ducker::unduck_entry(), tick_ms)
            &&& (!requesting && m.phase is EnteringUnduck) ==> step
                == crate::ducker::unduck_progress(cfg, m, tick_ms)
            &&& (!requesting && m.phase is Idle) ==> step == (m, None::<u8>)
        }),
{
}

/// While nothing requests ducking and the machine is idle, a tick is a
/// stutter: the machine is unchanged and nothing is emitted.
pub proof fn lemma_idle_stutter(cfg: DuckingConfig, m: MachineState, tick_ms: u64)
    requires
        m.phase is Idle,
    ensures
        machine_next(cfg, m, false, tick_ms) == (m, None::<u8>),
{
}

/// The engine-level reading of the idle stutter: a tick that ends with no
/// active reason while the machine was idle leaves the whole machine
/// snapshot unchanged and performs no routing write.
pub proof fn lemma_on_tick_idle_idempotent(
    pre: AudioDucker,
    post: AudioDucker,
    mic_db: Option<i64>,
    mute_active: bool,
    out: TickOutput,
)
    requires
        on_tick_post(pre, post, mic_db, mute_active, out),
        pre.machine().phase is Idle,
        !post.ducking_calc.spec_requesting(),
    ensures
        post.machine() == pre.machine(),
        out.emitted is None,
        out.writes@.len() == 0,
{
    lemma_idle_stutter(pre.config, pre.machine(), pre.tick_interval_ms);
}

/// Monotonic progress: the cursors never pass their table's length; a
/// cursor strictly increases only by one, only when its direction is
/// selected and the pending wait is satisfied by this tick; and any
/// progress of one direction leaves the other direction's cursor at zero.
/// The machine's invariant is preserved along the way.
pub proof fn lemma_monotonic_progress(
    cfg: DuckingConfig,
    m: MachineState,
    requesting: bool,
    tick_ms: u64,
)
    requires
        cfg.wf(),
        machine_wf(cfg, m),
        tick_ms <= MAX_TIME_MS,
        cfg.duck_steps@.len() > 0,
        cfg.unduck_steps@.len() > 0,
    ensures
        ({
            let (next, emitted) = machine_next(cfg, m, requesting, tick_ms);
            &&& machine_wf(cfg, next)
            &&& next.duck_step_index <= cfg.duck_steps@.len()
            &&& next.unduck_step_index <= cfg.unduck_steps@.len()
            &&& next.duck_step_index > m.duck_step_index ==> {
                &&& next.duck_step_index == m.duck_step_index + 1
                &&& requesting
                &&& m.elapsed_in_duck_ms + tick_ms >= duck_wait_ms(cfg, m.duck_step_index as int)
                &&& next.unduck_step_index == 0
            }
            &&& next.unduck_step_index > m.unduck_step_index ==> {
                &&& next.unduck_step_index == m.unduck_step_index + 1
                &&& !requesting
                &&& m.elapsed_in_unduck_ms + tick_ms >= unduck_wait_ms(
                    cfg,
                    m.unduck_step_index as int,
                )
                &&& next.duck_step_index == 0
            }
        }),
{
    machine_next_cases(cfg, m, requesting, tick_ms);
    assert(cfg.duck_steps.len() == cfg.duck_steps@.len());
    assert(cfg.unduck_steps.len() == cfg.unduck_steps@.len());
    assert(duck_wait_ms(cfg, m.duck_step_index as int) <= MAX_TIME_MS) by {
        if m.duck_step_index > 0 {
            assert(cfg.duck_steps@[m.duck_step_index - 1].wf());
        }
    }
    assert(unduck_wait_ms(cfg, m.unduck_step_index as int) <= MAX_TIME_MS) by {
        if m.unduck_step_index > 0 {
            assert(cfg.unduck_steps@[m.unduck_step_index - 1].wf());
        }
    }
}

/// The floor guarantee: whatever the reading and the stored envelope, a
/// gated output never falls below the floor, and a hard-muted source yields
/// exactly the floor.
pub proof fn lemma_gate_floor(
    p: GateParams,
    g: SimulatedNoiseGate,
    raw_db: i64,
    tick_ms: u64,
    mute_active: bool,
)
    requires
        p.wf(),
        g.wf(p),
    ensures
        gate_output(p, g, raw_db, tick_ms, mute_active) >= MIC_DB_MAX,
        mute_active ==> gate_output(p, g, raw_db, tick_ms, mute_active) == MIC_DB_MAX,
{
    if !mute_active && raw_db >= p.threshold_db {
        let acc = (if g.attack_accumulator_ms + tick_ms > p.attack_ms {
            p.attack_ms as int
        } else {
            g.attack_accumulator_ms + tick_ms
        }) as u64;
        assert(gate_interpolated(p, acc, raw_db) >= MIC_DB_MAX) by {
            assert((raw_db - MIC_DB_MAX) * acc / (p.attack_ms as int) >= 0) by (nonlinear_arith)
                requires
                    raw_db - MIC_DB_MAX >= 0,
                    acc >= 0,
                    p.attack_ms >= 1,
            ;
        }
    }
}

/// A tick that fails to obtain a level reading leaves the noise gate and the
/// reason set exactly as they were: a hardware read failure never forces a
/// release or a trigger.
pub proof fn lemma_failed_read_keeps_trigger_state(
    pre: AudioDucker,
    post: AudioDucker,
    mute_active: bool,
    out: TickOutput,
)
    requires
        on_tick_post(pre, post, None, mute_active, out),
        pre.config.enabled,
        pre.config.input_sources@.len() > 0,
    ensures
        post.noise_gate == pre.noise_gate,
        post.ducking_calc.active_reasons == pre.ducking_calc.active_reasons,
{
    assert(gate_and_reasons_post(pre, post, None, mute_active));
}

} // verus!
