//! The ducking calculator: the set of currently active trigger reasons and
//! the phase of the duck/unduck transition machine, with the predicates the
//! engine consults to pick the single branch that may fire on a tick.

use vstd::prelude::*;

use crate::channels::DuckingInput;

verus! {

/// The phase of the transition state machine.  The single authoritative
/// state: a tick fires at most one branch, chosen by the current phase and
/// the aggregated trigger signal.
#[derive(Clone, Copy, Debug, PartialEq, Eq, Structural)]
pub enum DuckPhase {
    /// Not ducked, no transition running.
    Idle,
    /// Walking the duck table (including the initial attack dwell).
    EnteringDuck,
    /// The duck table is exhausted; output volumes sit at its last step.
    Ducked,
    /// Walking the unduck table (including the initial release dwell).
    EnteringUnduck,
}

/// Aggregates the active ducking reasons into one trigger signal and holds
/// the transition phase.  Pure set algebra plus phase queries; no timing.
#[derive(Clone, Debug)]
pub struct DuckingCalculator {
    /// The trigger sources that are currently active.  A set: no source
    /// appears twice.
    pub active_reasons: Vec<DuckingInput>,
    /// The current phase of the transition machine.
    pub phase: DuckPhase,
}

impl DuckingCalculator {
    /// The reason list holds no duplicates, so removing one occurrence
    /// removes the reason.
    pub open spec fn wf(self) -> bool {
        forall|i: int, j: int|
            0 <= i < j < self.active_reasons@.len()
                ==> self.active_reasons@[i] != self.active_reasons@[j]
    }

    /// Whether `input` is an active ducking reason.
    pub open spec fn spec_has_reason(self, input: DuckingInput) -> bool {
        self.active_reasons@.contains(input)
    }

    /// Whether any reason is active: the aggregated "duck requested" signal.
    pub open spec fn spec_requesting(self) -> bool {
        self.active_reasons@.len() > 0
    }

    /// A fresh calculator: no active reasons, idle phase.
    pub fn new() -> (c: DuckingCalculator)
        ensures
            c.wf(),
            !c.spec_requesting(),
            c.active_reasons@.len() == 0,
            c.phase == DuckPhase::Idle,
    {
        DuckingCalculator { active_reasons: Vec::new(), phase: DuckPhase::Idle }
    }

    /// Whether `input` is currently listed as an active reason.
    pub fn has_reason(&self, input: DuckingInput) -> (b: bool)
        ensures
            b == self.spec_has_reason(input),
    {
        let n = self.active_reasons.len();
        let mut k: usize = 0;
        while k < n
            invariant
                n == self.active_reasons@.len(),
                k <= n,
                forall|i: int| 0 <= i < k ==> self.active_reasons@[i] != input,
            decreases n - k,
        {
            if self.active_reasons[k] == input {
                return true;
            }
            k += 1;
        }
        false
    }

    /// Records one source's trigger decision: inserts the reason when it is
    /// triggering, removes it when it is not.  Every other reason, and the
    /// phase, are left as they were.
    pub fn handle_result(&mut self, input: DuckingInput, triggering: bool)
        requires
            old(self).wf(),
        ensures
            final(self).wf(),
            final(self).phase == old(self).phase,
            forall|x: DuckingInput|
                final(self).spec_has_reason(x)
                    == if x == input { triggering } else { old(self).spec_has_reason(x) },
            final(self).spec_requesting()
                == (triggering || exists|x: DuckingInput|
                        x != input && old(self).spec_has_reason(x)),
    {
        if triggering {
            if !self.has_reason(input) {
                self.active_reasons.push(input);
                assert forall|x: DuckingInput| self.spec_has_reason(x)
                    == if x == input { true } else { old(self).spec_has_reason(x) } by {
                    if x == input {
                        assert(self.active_reasons@[self.active_reasons@.len() - 1] == input);
                    } else {
                        if old(self).spec_has_reason(x) {
                            let i = choose|i: int|
                                0 <= i < old(self).active_reasons@.len()
                                    && old(self).active_reasons@[i] == x;
                            assert(self.active_reasons@[i] == x);
                        } else {
                            if self.active_reasons@.contains(x) {
                                let i = choose|i: int|
                                    0 <= i < self.active_reasons@.len()
                                        && self.active_reasons@[i] == x;
                                assert(i < old(self).active_reasons@.len());
                            }
                        }
                    }
                }
            } else {
                assert(self.spec_requesting());
            }
        } else {
            match self.find_reason(input) {
                Some(at) => {
                    self.active_reasons.remove(at);
                    proof {
                        old(self).active_reasons@.remove_ensures(at as int);
                    }
                    assert forall|x: DuckingInput| self.spec_has_reason(x)
                        == if x == input { false } else { old(self).spec_has_reason(x) } by {
                        if x == input {
                            if self.active_reasons@.contains(x) {
                                let i = choose|i: int|
                                    0 <= i < self.active_reasons@.len()
                                        && self.active_reasons@[i] == x;
                                if i < at as int {
                                    assert(old(self).active_reasons@[i] == x);
                                } else {
                                    assert(old(self).active_reasons@[i + 1] == x);
                                }
                            }
                        } else {
                            if old(self).spec_has_reason(x) {
                                let i = choose|i: int|
                                    0 <= i < old(self).active_reasons@.len()
                                        && old(self).active_reasons@[i] == x;
                                if i < at as int {
                                    assert(self.active_reasons@[i] == x);
                                } else {
                                    assert(i != at);
                                    assert(self.active_reasons@[i - 1] == x);
                                }
                            } else {
                                if self.active_reasons@.contains(x) {
                                    let i = choose|i: int|
                                        0 <= i < self.active_reasons@.len()
                                            && self.active_reasons@[i] == x;
                                    if i < at as int {
                                        assert(old(self).active_reasons@[i] == x);
                                    } else {
                                        assert(old(self).active_reasons@[i + 1] == x);
                                    }
                                }
                            }
                        }
                    }
                },
                None => {
                    assert(!old(self).spec_has_reason(input));
                },
            }
        }
        proof {
            lemma_requesting_iff_some_reason(*self);
        }
    }

    /// The position of `input` in the reason list, when it is present.
    fn find_reason(&self, input: DuckingInput) -> (r: Option<usize>)
        ensures
            match r {
                Some(i) => i < self.active_reasons@.len() && self.active_reasons@[i as int] == input,
                None => !self.spec_has_reason(input),
            },
    {
        let n = self.active_reasons.len();
        let mut k: usize = 0;
        while k < n
            invariant
                n == self.active_reasons@.len(),
                k <= n,
                forall|i: int| 0 <= i < k ==> self.active_reasons@[i] != input,
            decreases n - k,
        {
            if self.active_reasons[k] == input {
                return Some(k);
            }
            k += 1;
        }
        None
    }

    /// The aggregated trigger signal: true while any reason is active.
    pub fn is_requesting_duck(&self) -> (b: bool)
        ensures
            b == self.spec_requesting(),
    {
        self.active_reasons.len() > 0
    }

    /// The duck-side accumulator may be cleared: nothing requests ducking
    /// and no duck transition is running.
    pub fn need_duck_time_reset(&self) -> (b: bool)
        ensures
            b == (!self.spec_requesting()
                && (self.phase is Idle || self.phase is EnteringUnduck)),
    {
        !self.is_requesting_duck()
            && (self.phase == DuckPhase::Idle || self.phase == DuckPhase::EnteringUnduck)
    }

    /// The unduck-side accumulator may be cleared: ducking is requested and
    /// no unduck transition is running.
    pub fn need_unduck_time_reset(&self) -> (b: bool)
        ensures
            b == (self.spec_requesting()
                && (self.phase is EnteringDuck || self.phase is Ducked)),
    {
        self.is_requesting_duck()
            && (self.phase == DuckPhase::EnteringDuck || self.phase == DuckPhase::Ducked)
    }

    /// A duck entry must begin: ducking is requested while idle or while
    /// still recovering.
    pub fn need_first_duck(&self) -> (b: bool)
        ensures
            b == (self.spec_requesting()
                && (self.phase is Idle || self.phase is EnteringUnduck)),
    {
        self.is_requesting_duck()
            && (self.phase == DuckPhase::Idle || self.phase == DuckPhase::EnteringUnduck)
    }

    /// The running duck walk must continue: ducking is still requested and
    /// the cursor has not exhausted a table of `size` steps.
    pub fn need_other_duck(&self, size: usize, index: usize) -> (b: bool)
        ensures
            b == (self.spec_requesting() && self.phase is EnteringDuck && index < size),
    {
        self.is_requesting_duck() && self.phase == DuckPhase::EnteringDuck && index < size
    }

    /// An unduck entry must begin: nothing requests ducking while a duck
    /// transition is running or settled.
    pub fn need_first_unduck(&self) -> (b: bool)
        ensures
            b == (!self.spec_requesting()
                && (self.phase is EnteringDuck || self.phase is Ducked)),
    {
        !self.is_requesting_duck()
            && (self.phase == DuckPhase::EnteringDuck || self.phase == DuckPhase::Ducked)
    }

    /// The running unduck walk must continue: nothing requests ducking and
    /// the cursor has not exhausted a table of `size` steps.
    pub fn need_other_unduck(&self, size: usize, index: usize) -> (b: bool)
        ensures
            b == (!self.spec_requesting() && self.phase is EnteringUnduck && index < size),
    {
        !self.is_requesting_duck() && self.phase == DuckPhase::EnteringUnduck && index < size
    }
}

/// A well-formed calculator requests ducking exactly when some reason is
/// active.
pub proof fn lemma_requesting_iff_some_reason(c: DuckingCalculator)
    ensures
        c.spec_requesting() <==> exists|x: DuckingInput| c.spec_has_reason(x),
{
    if c.spec_requesting() {
        assert(c.spec_has_reason(c.active_reasons@[0]));
    }
}

} // verus!
