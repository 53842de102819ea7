//! The four-phase state machine advanced on each timer expiry.
use vstd::prelude::*;

use crate::envelope::{
    falling_level, falling_ramp_level, ramp_end_points, rising_level, rising_ramp_level,
    DECAY_US, HIGH_LEVEL, HOLD_US, LOW_LEVEL, TICK_US,
};

verus! {

/// Stage of the envelope cycle.
#[derive(Clone, Copy, Debug, PartialEq, Eq, Structural)]
pub enum Phase {
    /// Output pinned at the high level.
    HighHold,
    /// Output ramping from the high level down to the low level.
    HighDecay,
    /// Output pinned at the low level.
    LowHold,
    /// Output ramping from the low level up to the high level.
    LowDecay,
}

/// Diagnostic event reported when a hold phase is served.
#[derive(Clone, Copy, Debug, PartialEq, Eq, Structural)]
pub enum Milestone {
    /// The high level has been written and will be held.
    EnteredHighHold,
    /// The low level has been written and will be held.
    EnteredLowHold,
}

/// What one expiry asks of the hardware: the converter code to write, the
/// delay until the next expiry, and an optional diagnostic event.
#[derive(Clone, Copy, Debug, PartialEq, Eq)]
pub struct Action {
    pub output: u16,
    pub rearm_us: u32,
    pub note: Option<Milestone>,
}

/// Whether `p` pins the output at one level.
pub open spec fn is_hold(p: Phase) -> bool {
    p == Phase::HighHold || p == Phase::LowHold
}

/// A hold phase is entered with its elapsed time at zero; a decay phase is
/// left as soon as its elapsed time reaches the ramp's duration.
pub open spec fn valid_state(p: Phase, elapsed: nat) -> bool {
    if is_hold(p) {
        elapsed == 0
    } else {
        elapsed < DECAY_US
    }
}

/// Phase and elapsed time after one expiry served in phase `p`.
pub open spec fn next_state(p: Phase, elapsed: nat) -> (Phase, nat) {
    let e = (elapsed + TICK_US) as nat;
    match p {
        Phase::HighHold => (Phase::HighDecay, 0),
        Phase::HighDecay => if e >= DECAY_US {
            (Phase::LowHold, 0)
        } else {
            (Phase::HighDecay, e)
        },
        Phase::LowHold => (Phase::LowDecay, 0),
        Phase::LowDecay => if e >= DECAY_US {
            (Phase::HighHold, 0)
        } else {
            (Phase::LowDecay, e)
        },
    }
}

/// Converter code written by an expiry served in phase `p`: the held level,
/// or the ramp's level one tick further on.
pub open spec fn output_for(p: Phase, elapsed: nat) -> int {
    match p {
        Phase::HighHold => HIGH_LEVEL as int,
        Phase::HighDecay => falling_level(elapsed + TICK_US),
        Phase::LowHold => LOW_LEVEL as int,
        Phase::LowDecay => rising_level(elapsed + TICK_US),
    }
}

/// Delay until the next expiry: the hold time in a hold phase, one tick in a
/// decay phase.
pub open spec fn rearm_for(p: Phase) -> int {
    if is_hold(p) {
        HOLD_US as int
    } else {
        TICK_US as int
    }
}

/// Diagnostic event of an expiry served in phase `p`.
pub open spec fn note_for(p: Phase) -> Option<Milestone> {
    match p {
        Phase::HighHold => Some(Milestone::EnteredHighHold),
        Phase::LowHold => Some(Milestone::EnteredLowHold),
        _ => None,
    }
}

/// State after `n` expiries from `(p, elapsed)`.
pub open spec fn run(p: Phase, elapsed: nat, n: nat) -> (Phase, nat)
    decreases n,
{
    if n == 0 {
        (p, elapsed)
    } else {
        let s = next_state(p, elapsed);
        run(s.0, s.1, (n - 1) as nat)
    }
}

/// Expiries in one full cycle: each hold takes one, each ramp
/// `ceil(DECAY_US / TICK_US)`.
pub open spec fn cycle_len() -> nat {
    2 * (1 + ((DECAY_US + TICK_US - 1) as int / TICK_US as int) as nat)
}

/// Phase and elapsed time shared by successive expiries.
pub struct Sequencer {
    phase: Phase,
    elapsed_us: u32,
}

impl View for Sequencer {
    type V = (Phase, nat);

    closed spec fn view(&self) -> (Phase, nat) {
        (self.phase, self.elapsed_us as nat)
    }
}

impl Sequencer {
    /// The state holds the invariant of the cycle.
    pub open spec fn wf(&self) -> bool {
        valid_state(self@.0, self@.1)
    }

    /// The state the device boots into: the high hold, nothing elapsed.
    pub fn new() -> (r: Sequencer)
        ensures
            r@ == (Phase::HighHold, 0nat),
            r.wf(),
    {
        Sequencer { phase: Phase::HighHold, elapsed_us: 0 }
    }

    /// A state at `phase` with `elapsed_us` elapsed, when that pair can occur
    /// in the cycle.
    pub fn at(phase: Phase, elapsed_us: u32) -> (r: Option<Sequencer>)
        ensures
            r is Some <==> valid_state(phase, elapsed_us as nat),
            r matches Some(s) ==> s@ == (phase, elapsed_us as nat) && s.wf(),
    {
        let ok = match phase {
            Phase::HighHold | Phase::LowHold => elapsed_us == 0,
            Phase::HighDecay | Phase::LowDecay => elapsed_us < DECAY_US,
        };
        if ok {
            Some(Sequencer { phase, elapsed_us })
        } else {
            None
        }
    }

    /// Current phase.
    pub fn phase(&self) -> (r: Phase)
        ensures
            r == self@.0,
    {
        self.phase
    }

    /// Microseconds elapsed in the current phase.
    pub fn elapsed_us(&self) -> (r: u32)
        ensures
            r as nat == self@.1,
    {
        self.elapsed_us
    }

    /// Serves one timer expiry: decides what to write and when to fire next,
    /// and advances the state.
    pub fn on_expiry(&mut self) -> (a: Action)
        requires
            old(self).wf(),
        ensures
            final(self).wf(),
            final(self)@ == next_state(old(self)@.0, old(self)@.1),
            a.output as int == output_for(old(self)@.0, old(self)@.1),
            a.rearm_us as int == rearm_for(old(self)@.0),
            is_hold(old(self)@.0) ==> a.rearm_us == HOLD_US,
            !is_hold(old(self)@.0) ==> a.rearm_us == TICK_US,
            a.note == note_for(old(self)@.0),
    {
        match self.phase {
            Phase::HighHold => {
                self.phase = Phase::HighDecay;
                self.elapsed_us = 0;
                Action { output: HIGH_LEVEL, rearm_us: HOLD_US, note: Some(Milestone::EnteredHighHold) }
            },
            Phase::HighDecay => {
                let e = self.elapsed_us + TICK_US;
                let output = falling_ramp_level(e);
                if e >= DECAY_US {
                    self.phase = Phase::LowHold;
                    self.elapsed_us = 0;
                } else {
                    self.elapsed_us = e;
                }
                Action { output, rearm_us: TICK_US, note: None }
            },
            Phase::LowHold => {
                self.phase = Phase::LowDecay;
                self.elapsed_us = 0;
                Action { output: LOW_LEVEL, rearm_us: HOLD_US, note: Some(Milestone::EnteredLowHold) }
            },
            Phase::LowDecay => {
                let e = self.elapsed_us + TICK_US;
                let output = rising_ramp_level(e);
                if e >= DECAY_US {
                    self.phase = Phase::HighHold;
                    self.elapsed_us = 0;
                } else {
                    self.elapsed_us = e;
                }
                Action { output, rearm_us: TICK_US, note: None }
            },
        }
    }
}

/// Every expiry keeps the state within the cycle.
pub proof fn next_state_valid(p: Phase, elapsed: nat)
    requires
        valid_state(p, elapsed),
    ensures
        valid_state(next_state(p, elapsed).0, next_state(p, elapsed).1),
{
}

/// Running `a` expiries and then `b` more is running `a + b`.
proof fn run_compose(p: Phase, elapsed: nat, a: nat, b: nat)
    ensures
        run(p, elapsed, a + b) == run(run(p, elapsed, a).0, run(p, elapsed, a).1, b),
    decreases a,
{
    if a > 0 {
        let s = next_state(p, elapsed);
        run_compose(s.0, s.1, (a - 1) as nat, b);
        assert((a + b - 1) as nat == ((a - 1) as nat + b) as nat);
    }
}

/// A decay phase whose elapsed time crosses the ramp's duration on the `k`-th
/// tick ends in the opposite hold after exactly `k` expiries.
proof fn decay_completes(p: Phase, elapsed: nat, k: nat)
    requires
        !is_hold(p),
        k >= 1,
        elapsed + TICK_US * (k - 1) < DECAY_US <= elapsed + TICK_US * k,
    ensures
        run(p, elapsed, k) == (if p == Phase::HighDecay {
            (Phase::LowHold, 0nat)
        } else {
            (Phase::HighHold, 0nat)
        }),
    decreases k,
{
    let e = (elapsed + TICK_US) as nat;
    if k > 1 {
        assert(TICK_US * (k - 1) == TICK_US + TICK_US * (k - 2)) by (nonlinear_arith);
        assert(TICK_US * k == TICK_US + TICK_US * (k - 1)) by (nonlinear_arith);
        assert(next_state(p, elapsed) == (p, e));
        decay_completes(p, e, (k - 1) as nat);
    } else {
        assert(run(p, elapsed, 1) == run(next_state(p, elapsed).0, next_state(p, elapsed).1, 0));
    }
}

/// From the boot state, one full cycle of expiries, two holds and two ramps of
/// `ceil(DECAY_US / TICK_US)` ticks each, returns to the high hold with nothing
/// elapsed.
pub proof fn cycle_closes()
    ensures
        run(Phase::HighHold, 0, cycle_len()) == (Phase::HighHold, 0nat),
{
    let k: nat = ((DECAY_US + TICK_US - 1) as int / TICK_US as int) as nat;
    assert(k == 1334);
    assert(cycle_len() == 1 + k + 1 + k);
    assert(run(Phase::HighHold, 0, 1) == run(Phase::HighDecay, 0, 0));
    assert(run(Phase::LowHold, 0, 1) == run(Phase::LowDecay, 0, 0));
    decay_completes(Phase::HighDecay, 0, k);
    decay_completes(Phase::LowDecay, 0, k);
    run_compose(Phase::LowHold, 0, 1, k);
    run_compose(Phase::HighDecay, 0, k, 1 + k);
    run_compose(Phase::HighHold, 0, 1, k + 1 + k);
    assert(1 + (k + (1 + k)) == cycle_len());
}

/// The last tick of a ramp, however far it overshoots the ramp's duration,
/// moves to the opposite hold with nothing elapsed and writes that hold's
/// level exactly.
pub proof fn decay_boundary(p: Phase, elapsed: nat)
    requires
        !is_hold(p),
        elapsed + TICK_US >= DECAY_US,
    ensures
        p == Phase::HighDecay ==> next_state(p, elapsed) == (Phase::LowHold, 0nat)
            && output_for(p, elapsed) == LOW_LEVEL,
        p == Phase::LowDecay ==> next_state(p, elapsed) == (Phase::HighHold, 0nat)
            && output_for(p, elapsed) == HIGH_LEVEL,
{
    ramp_end_points(elapsed + TICK_US);
}

} // verus!
