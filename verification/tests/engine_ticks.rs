//! Tick-by-tick behaviour of the whole ducking engine: entry, table walk,
//! interruption, recovery, and the degenerate configurations.
//! Decibel values are in tenths of a decibel.

use goxlr_ducking::calculator::DuckPhase;
use goxlr_ducking::channels::{DuckingInput, InputChannel, OutputChannel};
use goxlr_ducking::config::{DuckStep, DuckingConfig, RouteCell};
use goxlr_ducking::ducker::AudioDucker;
use goxlr_ducking::gate::{GateParams, SimulatedNoiseGate};

const LOUD: i64 = -100;
const QUIET: i64 = -400;

fn step(route_volume: u8, wait_time_ms: u64) -> DuckStep {
    DuckStep { route_volume, wait_time_ms }
}

fn cell(input: InputChannel, output: OutputChannel) -> RouteCell {
    RouteCell { input, output }
}

fn two_cells() -> Vec<RouteCell> {
    vec![
        cell(InputChannel::Music, OutputChannel::Headphones),
        cell(InputChannel::Music, OutputChannel::StreamMix),
    ]
}

fn config(
    duck_steps: Vec<DuckStep>,
    unduck_steps: Vec<DuckStep>,
    attack_time_ms: u64,
    release_time_ms: u64,
) -> DuckingConfig {
    DuckingConfig {
        enabled: true,
        input_sources: vec![DuckingInput::Mic],
        output_routing: two_cells(),
        attack_time_ms,
        release_time_ms,
        duck_steps,
        unduck_steps,
    }
}

/// Gate tuning that opens after one 20 ms tick and closes after one quiet
/// 20 ms tick, so the engine's trigger follows the reading almost directly.
fn fast_gate() -> GateParams {
    GateParams { threshold_db: -200, attack_ms: 20, release_ms: 20 }
}

fn engine(cfg: DuckingConfig, gate: GateParams) -> AudioDucker {
    assert!(cfg.is_wf());
    assert!(gate.is_wf());
    let mut d = AudioDucker::new(20);
    d.load(cfg, gate);
    d
}

#[test]
fn single_step_emits_on_the_fifth_tick_exactly_once() {
    // One immediate duck step of volume 80 behind a 100 ms attack dwell,
    // ticked every 20 ms with its gated level above the threshold: the
    // emission happens on the fifth tick (100 ms elapsed) and only there.
    let mut d = engine(config(vec![step(80, 0)], vec![step(100, 0)], 100, 100), fast_gate());

    for tick in 1..=6 {
        let out = d.on_tick(Some(LOUD), false);
        if tick == 5 {
            assert_eq!(out.emitted, Some(80));
            assert_eq!(out.writes.len(), 2);
            for w in out.writes.iter() {
                assert_eq!(w.volume, 80);
                assert_eq!(w.input, InputChannel::Music);
            }
            assert_eq!(d.ducking_calc.phase, DuckPhase::Ducked);
        } else {
            assert_eq!(out.emitted, None);
            assert!(out.writes.is_empty());
        }
    }
    assert_eq!(d.duck_step_index, 1);
}

#[test]
fn empty_duck_table_disables_ducking() {
    // An empty duck table: the tick never emits and the phase stays idle,
    // however loud the microphone is.
    let mut d = engine(config(Vec::new(), vec![step(100, 0)], 100, 100), fast_gate());

    for _ in 0..5 {
        let out = d.on_tick(Some(LOUD), false);
        assert_eq!(out.emitted, None);
        assert!(out.writes.is_empty());
        assert_eq!(d.ducking_calc.phase, DuckPhase::Idle);
        assert_eq!(d.duck_step_index, 0);
    }
    // The noise gate and the reason set still track the reading.
    assert!(d.ducking_calc.active_reasons.contains(&DuckingInput::Mic));
}

#[test]
fn interrupted_duck_entry_begins_release_dwell() {
    // Mid duck entry (accumulator at 60 of 100 ms) the level drops below
    // the threshold: the next tick evaluates the trigger as false and
    // begins the unduck entry with the release dwell, while the duck
    // accumulator resets to zero.
    let mut d = engine(config(vec![step(80, 0)], vec![step(100, 0)], 100, 100), fast_gate());

    for _ in 0..3 {
        let out = d.on_tick(Some(LOUD), false);
        assert_eq!(out.emitted, None);
    }
    assert_eq!(d.ducking_calc.phase, DuckPhase::EnteringDuck);
    assert_eq!(d.elapsed_in_duck_ms, 60);

    let out = d.on_tick(Some(QUIET), false);
    assert_eq!(out.emitted, None);
    assert_eq!(d.ducking_calc.phase, DuckPhase::EnteringUnduck);
    assert_eq!(d.elapsed_in_duck_ms, 0);
    assert_eq!(d.elapsed_in_unduck_ms, 20);
    assert_eq!(d.duck_step_index, 0);
}

#[test]
fn idle_engine_without_trigger_never_changes() {
    // While nothing requests ducking and the phase is idle, ticks change
    // neither phase, cursors nor accumulators, and nothing is emitted.
    let mut d = engine(config(vec![step(80, 0)], vec![step(100, 0)], 100, 100), fast_gate());

    for _ in 0..4 {
        let out = d.on_tick(Some(QUIET), false);
        assert_eq!(out.emitted, None);
        assert!(out.writes.is_empty());
        assert_eq!(d.ducking_calc.phase, DuckPhase::Idle);
        assert_eq!(d.duck_step_index, 0);
        assert_eq!(d.unduck_step_index, 0);
        assert_eq!(d.elapsed_in_duck_ms, 0);
        assert_eq!(d.elapsed_in_unduck_ms, 0);
        assert!(d.ducking_calc.active_reasons.is_empty());
    }

    // With no reading at all the tick is a complete no-op, gate included.
    let gate_before = d.noise_gate;
    let out = d.on_tick(None, false);
    assert_eq!(out.emitted, None);
    assert_eq!(d.noise_gate, gate_before);
    assert_eq!(d.ducking_calc.phase, DuckPhase::Idle);
}

#[test]
fn table_walk_fires_one_step_per_tick() {
    // Three duck steps with zero waits behind a 20 ms attack dwell: the
    // walk still takes one tick per step, never catching up two at once.
    let cfg = config(
        vec![step(80, 0), step(60, 0), step(40, 0)],
        vec![step(90, 0), step(100, 0)],
        20,
        20,
    );
    let mut d = engine(cfg, fast_gate());

    let mut emissions: Vec<Option<u8>> = Vec::new();
    for _ in 0..4 {
        emissions.push(d.on_tick(Some(LOUD), false).emitted);
    }
    assert_eq!(emissions, vec![Some(80), Some(60), Some(40), None]);
    assert_eq!(d.ducking_calc.phase, DuckPhase::Ducked);
    assert_eq!(d.duck_step_index, 3);
}

#[test]
fn recovery_walk_returns_to_idle_and_resets_duck_cursor() {
    let cfg = config(
        vec![step(80, 0), step(60, 0), step(40, 0)],
        vec![step(90, 0), step(100, 0)],
        20,
        20,
    );
    let mut d = engine(cfg, fast_gate());
    for _ in 0..3 {
        d.on_tick(Some(LOUD), false);
    }
    assert_eq!(d.ducking_calc.phase, DuckPhase::Ducked);

    // One quiet tick closes the noise gate (release 20 ms) and begins the
    // recovery; its release dwell of 20 ms is satisfied the same tick, so
    // the first unduck step fires at once, resetting the duck cursor.
    let out = d.on_tick(Some(QUIET), false);
    assert_eq!(out.emitted, Some(90));
    assert_eq!(d.duck_step_index, 0);
    assert_eq!(d.ducking_calc.phase, DuckPhase::EnteringUnduck);

    let out = d.on_tick(Some(QUIET), false);
    assert_eq!(out.emitted, Some(100));
    assert_eq!(d.ducking_calc.phase, DuckPhase::Idle);

    let out = d.on_tick(Some(QUIET), false);
    assert_eq!(out.emitted, None);
    assert_eq!(d.ducking_calc.phase, DuckPhase::Idle);
}

#[test]
fn failed_reading_keeps_trigger_state_and_timers_run_on() {
    // A hardware read failure skips the noise gate and aggregator update but the
    // transition machine still advances from the retained reasons.
    let mut d = engine(config(vec![step(80, 0)], vec![step(100, 0)], 100, 100), fast_gate());
    for _ in 0..2 {
        d.on_tick(Some(LOUD), false);
    }
    let gate_before = d.noise_gate;
    assert_eq!(d.elapsed_in_duck_ms, 40);

    let out = d.on_tick(None, false);
    assert_eq!(out.emitted, None);
    assert_eq!(d.noise_gate, gate_before);
    assert!(d.ducking_calc.active_reasons.contains(&DuckingInput::Mic));
    assert_eq!(d.ducking_calc.phase, DuckPhase::EnteringDuck);
    assert_eq!(d.elapsed_in_duck_ms, 60);
}

#[test]
fn muted_microphone_never_triggers() {
    let mut d = engine(config(vec![step(80, 0)], vec![step(100, 0)], 100, 100), fast_gate());
    for _ in 0..6 {
        let out = d.on_tick(Some(LOUD), true);
        assert_eq!(out.emitted, None);
        assert_eq!(d.ducking_calc.phase, DuckPhase::Idle);
        assert!(d.ducking_calc.active_reasons.is_empty());
    }
}

#[test]
fn disabled_config_is_a_complete_no_op() {
    let mut cfg = config(vec![step(80, 0)], vec![step(100, 0)], 100, 100);
    cfg.enabled = false;
    let mut d = engine(cfg, fast_gate());
    let gate_before = d.noise_gate;

    let out = d.on_tick(Some(LOUD), false);
    assert_eq!(out.emitted, None);
    assert!(out.writes.is_empty());
    assert_eq!(d.noise_gate, gate_before);
    assert_eq!(d.ducking_calc.phase, DuckPhase::Idle);
}

#[test]
fn no_trigger_sources_is_a_no_op() {
    let mut cfg = config(vec![step(80, 0)], vec![step(100, 0)], 100, 100);
    cfg.input_sources = Vec::new();
    let mut d = engine(cfg, fast_gate());
    assert!(!d.is_ducker_active());

    let out = d.on_tick(Some(LOUD), false);
    assert_eq!(out.emitted, None);
    assert_eq!(d.ducking_calc.phase, DuckPhase::Idle);
}

#[test]
fn reload_resets_the_runtime_state() {
    let mut d = engine(config(vec![step(80, 0)], vec![step(100, 0)], 20, 20), fast_gate());
    d.on_tick(Some(LOUD), false);
    assert_eq!(d.ducking_calc.phase, DuckPhase::Ducked);
    assert!(!d.ducking_calc.active_reasons.is_empty());

    let cfg = config(vec![step(50, 0)], vec![step(100, 0)], 40, 40);
    assert!(cfg.is_wf());
    d.load(cfg, fast_gate());
    assert_eq!(d.ducking_calc.phase, DuckPhase::Idle);
    assert!(d.ducking_calc.active_reasons.is_empty());
    assert_eq!(d.duck_step_index, 0);
    assert_eq!(d.unduck_step_index, 0);
    assert_eq!(d.noise_gate, SimulatedNoiseGate::initial());
}

#[test]
fn config_runtime_check_rejects_out_of_range_steps() {
    let mut cfg = config(vec![step(80, 0)], vec![step(100, 0)], 100, 100);
    assert!(cfg.is_wf());
    cfg.duck_steps = vec![step(101, 0)];
    assert!(!cfg.is_wf());
    cfg.duck_steps = vec![step(80, 90_000_000)];
    assert!(!cfg.is_wf());
    cfg.duck_steps = vec![step(80, 0)];
    cfg.attack_time_ms = 90_000_000;
    assert!(!cfg.is_wf());
}
