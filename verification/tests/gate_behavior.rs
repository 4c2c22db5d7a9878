//! Behaviour of the simulated noise gate on concrete readings.
//! Decibel values are in tenths of a decibel: -722 is the floor (-72.2 dB).

use goxlr_ducking::gate::{GateParams, SimulatedNoiseGate, MIC_DB_MAX};

fn params(threshold_db: i64, attack_ms: u64, release_ms: u64) -> GateParams {
    GateParams { threshold_db, attack_ms, release_ms }
}

#[test]
fn attack_interpolates_toward_raw_input() {
    // Threshold -20 dB, attack 40 ms, tick 20 ms; the raw input jumps to
    // -10 dB.  After one tick the interpolation is halfway from the floor
    // (-72.2 + 31.1 = -41.1 dB), still below the threshold, so the output
    // clamps to the floor and the source does not trigger.  After the
    // second tick the attack is complete, the output equals the raw input
    // and the source triggers.
    let p = params(-200, 40, 2000);
    let mut g = SimulatedNoiseGate::initial();

    let out1 = g.evaluate(&p, -100, 20, false);
    assert_eq!(out1, MIC_DB_MAX);
    assert!(out1 < p.threshold_db);
    assert_eq!(g.attack_accumulator_ms, 20);

    let out2 = g.evaluate(&p, -100, 20, false);
    assert_eq!(out2, -100);
    assert!(out2 >= p.threshold_db);
    assert_eq!(g.attack_accumulator_ms, 40);
}

#[test]
fn release_holds_last_output_then_snaps_to_floor() {
    let p = params(-200, 20, 40);
    let mut g = SimulatedNoiseGate::initial();

    // One tick above the threshold opens the noise gate fully (attack == tick).
    let raised = g.evaluate(&p, -100, 20, false);
    assert_eq!(raised, -100);

    // Below the threshold the output is held at the last value while the
    // release timer runs.
    let held = g.evaluate(&p, -400, 20, false);
    assert_eq!(held, -100);
    assert_eq!(g.release_accumulator_ms, 20);

    // When the release completes the output snaps to the floor, once.
    let snapped = g.evaluate(&p, -400, 20, false);
    assert_eq!(snapped, MIC_DB_MAX);
    assert!(g.was_gated);

    // And it stays at the floor on further quiet ticks.
    let still = g.evaluate(&p, -400, 20, false);
    assert_eq!(still, MIC_DB_MAX);
}

#[test]
fn muted_source_reports_exactly_the_floor() {
    let p = params(-200, 40, 40);
    let mut g = SimulatedNoiseGate::initial();
    // Open the noise gate first so the mute short-circuit is observable.
    g.evaluate(&p, -100, 20, false);
    let before = g;

    let out = g.evaluate(&p, -100, 20, true);
    assert_eq!(out, MIC_DB_MAX);
    // The short-circuit leaves the envelope memory untouched.
    assert_eq!(g, before);
}

#[test]
fn output_never_falls_below_the_floor() {
    let p = params(-200, 40, 40);
    let mut g = SimulatedNoiseGate::initial();
    let readings = [-10_000, -722, -500, -201, -200, -100, 0, 1_000, 10_000];
    for &raw in readings.iter() {
        let out = g.evaluate(&p, raw, 20, false);
        assert!(out >= MIC_DB_MAX);
    }
    for &raw in readings.iter() {
        let out = g.evaluate(&p, raw, 20, true);
        assert_eq!(out, MIC_DB_MAX);
    }
}

#[test]
fn gate_params_runtime_check() {
    assert!(params(-200, 40, 40).is_wf());
    assert!(params(MIC_DB_MAX, 1, 0).is_wf());
    // A zero attack would divide by zero in the interpolation.
    assert!(!params(-200, 0, 40).is_wf());
    // A threshold below the floor can never be reached by gated output.
    assert!(!params(-800, 40, 40).is_wf());
}
