//! The ducking configuration: which sources trigger ducking, which routing
//! cells are overridden, and the timed volume tables walked while entering
//! and leaving the ducked state.

use vstd::prelude::*;

use crate::channels::{DuckingInput, InputChannel, OutputChannel};

verus! {

/// Largest wait, attack or release time the engine accepts, in milliseconds
/// (one day).  Bounding every configured time keeps all accumulator
/// arithmetic far from `u64` overflow.
pub const MAX_TIME_MS: u64 = 86_400_000;

/// Largest route volume a transition step may carry.
pub const MAX_ROUTE_VOLUME: u8 = 100;

/// One entry of a transition table: the volume to emit when the step fires,
/// and how long the *next* step must wait after it.
#[derive(Clone, Copy, Debug, PartialEq, Eq, Structural)]
pub struct DuckStep {
    pub route_volume: u8,
    pub wait_time_ms: u64,
}

/// One cell of the routing matrix that is subject to ducking: volume writes
/// go to the (`input`, `output`) crossing point.
#[derive(Clone, Copy, Debug, PartialEq, Eq, Structural)]
pub struct RouteCell {
    pub input: InputChannel,
    pub output: OutputChannel,
}

/// The immutable per-profile configuration of the ducking engine.  It is
/// replaced wholesale by [`crate::ducker::AudioDucker::load`], which also
/// resets the runtime state.
#[derive(Clone, Debug)]
pub struct DuckingConfig {
    /// Master switch: when false, a tick does nothing at all.
    pub enabled: bool,
    /// The trigger sources that participate in ducking.
    pub input_sources: Vec<DuckingInput>,
    /// The routing cells whose volume is overridden while ducking.
    pub output_routing: Vec<RouteCell>,
    /// Dwell time before the first step of a duck transition may fire.
    pub attack_time_ms: u64,
    /// Dwell time before the first step of an unduck transition may fire.
    pub release_time_ms: u64,
    /// Table walked while entering the ducked state.
    pub duck_steps: Vec<DuckStep>,
    /// Table walked while recovering from the ducked state.
    pub unduck_steps: Vec<DuckStep>,
}

impl DuckStep {
    /// A step is well formed when its volume and wait time are in range.
    pub open spec fn wf(self) -> bool {
        &&& self.route_volume <= MAX_ROUTE_VOLUME
        &&& self.wait_time_ms <= MAX_TIME_MS
    }
}

impl DuckingConfig {
    /// A configuration is well formed when every configured time is bounded
    /// and every step volume is a percentage.  Empty transition tables are
    /// well formed: they disable ducking for the tick rather than fail.
    pub open spec fn wf(self) -> bool {
        &&& self.attack_time_ms <= MAX_TIME_MS
        &&& self.release_time_ms <= MAX_TIME_MS
        &&& forall|i: int| 0 <= i < self.duck_steps@.len() ==> #[trigger] self.duck_steps@[i].wf()
        &&& forall|i: int| 0 <= i < self.unduck_steps@.len() ==> #[trigger] self.unduck_steps@[i].wf()
    }

    /// An empty configuration: ducking disabled, no sources, no cells.
    pub fn disabled() -> (c: DuckingConfig)
        ensures
            c.wf(),
            !c.enabled,
            c.input_sources@.len() == 0,
            c.output_routing@.len() == 0,
            c.duck_steps@.len() == 0,
            c.unduck_steps@.len() == 0,
    {
        DuckingConfig {
            enabled: false,
            input_sources: Vec::new(),
            output_routing: Vec::new(),
            attack_time_ms: 0,
            release_time_ms: 0,
            duck_steps: Vec::new(),
            unduck_steps: Vec::new(),
        }
    }

    /// Runtime check of `wf`, for callers that assemble a configuration from
    /// unverified input.
    pub fn is_wf(&self) -> (b: bool)
        ensures
            b == self.wf(),
    {
        if self.attack_time_ms > MAX_TIME_MS || self.release_time_ms > MAX_TIME_MS {
            return false;
        }
        if !steps_wf(&self.duck_steps) {
            return false;
        }
        if !steps_wf(&self.unduck_steps) {
            return false;
        }
        true
    }
}

/// Runtime check that every step of a table is well formed.
fn steps_wf(steps: &Vec<DuckStep>) -> (b: bool)
    ensures
        b == forall|i: int| 0 <= i < steps@.len() ==> (#[trigger] steps@[i]).wf(),
{
    let n = steps.len();
    let mut k: usize = 0;
    while k < n
        invariant
            n == steps@.len(),
            k <= n,
            forall|i: int| 0 <= i < k ==> (#[trigger] steps@[i]).wf(),
        decreases n - k,
    {
        let s = steps[k];
        if s.route_volume > MAX_ROUTE_VOLUME || s.wait_time_ms > MAX_TIME_MS {
            return false;
        }
        k += 1;
    }
    true
}

} // verus!
