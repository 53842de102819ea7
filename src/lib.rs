//! Phase sequencer for a two-tone envelope: a held high level, a linear ramp
//! down, a held low level and a linear ramp back up, advanced one step on each
//! expiry of a one-shot timer.
use vstd::prelude::*;

pub mod envelope;
pub mod sequencer;

verus! {

} // verus!
