//! The envelope's fixed constants and the two linear ramps between its levels.
use vstd::prelude::*;

verus! {

/// Converter code held during the high tone.
pub const HIGH_LEVEL: u16 = 0x0599;

/// Converter code held during the low tone.
pub const LOW_LEVEL: u16 = 0x0200;

/// Distance between the two levels.
pub const LEVEL_SPAN: u16 = HIGH_LEVEL - LOW_LEVEL;

/// Largest code the 12-bit converter accepts.
pub const DAC_MAX: u16 = 0x0FFF;

/// Time spent pinned at either level, in microseconds.
pub const HOLD_US: u32 = 950_000;

/// Time spent ramping between the levels, in microseconds.
pub const DECAY_US: u32 = 100_000;

/// Re-arm interval while ramping, in microseconds.
pub const TICK_US: u32 = 75;

/// How far a ramp has travelled after `elapsed` microseconds, before clamping:
/// `floor(LEVEL_SPAN * elapsed / DECAY_US)`.
pub open spec fn ramp_travel(elapsed: int) -> int {
    (LEVEL_SPAN as int * elapsed) / (DECAY_US as int)
}

/// Level of the falling ramp: `HIGH_LEVEL - travel`, never below `LOW_LEVEL`.
pub open spec fn falling_level(elapsed: int) -> int {
    let v = HIGH_LEVEL as int - ramp_travel(elapsed);
    if v < LOW_LEVEL as int { LOW_LEVEL as int } else { v }
}

/// Level of the rising ramp: `LOW_LEVEL + travel`, never above `HIGH_LEVEL`.
pub open spec fn rising_level(elapsed: int) -> int {
    let v = LOW_LEVEL as int + ramp_travel(elapsed);
    if v > HIGH_LEVEL as int { HIGH_LEVEL as int } else { v }
}

/// The constants are consistent: the span is the difference of the levels,
/// both levels fit the converter, and a tick is shorter than a ramp.
pub proof fn constants_consistent()
    ensures
        LEVEL_SPAN == HIGH_LEVEL - LOW_LEVEL,
        LOW_LEVEL < HIGH_LEVEL <= DAC_MAX,
        0 < TICK_US < DECAY_US,
{
}

/// Travel of a ramp after `elapsed_us`, clamped to the span.
fn clamped_travel(elapsed_us: u32) -> (r: u16)
    ensures
        r as int == if ramp_travel(elapsed_us as int) > LEVEL_SPAN as int {
            LEVEL_SPAN as int
        } else {
            ramp_travel(elapsed_us as int)
        },
{
    let scaled: u64 = LEVEL_SPAN as u64 * elapsed_us as u64;
    let travel: u64 = scaled / DECAY_US as u64;
    if travel > LEVEL_SPAN as u64 {
        LEVEL_SPAN
    } else {
        travel as u16
    }
}

/// Converter code on the falling ramp, `elapsed_us` into it.
pub fn falling_ramp_level(elapsed_us: u32) -> (r: u16)
    ensures
        r as int == falling_level(elapsed_us as int),
        LOW_LEVEL <= r <= HIGH_LEVEL,
{
    let t = clamped_travel(elapsed_us);
    HIGH_LEVEL - t
}

/// Converter code on the rising ramp, `elapsed_us` into it.
pub fn rising_ramp_level(elapsed_us: u32) -> (r: u16)
    ensures
        r as int == rising_level(elapsed_us as int),
        LOW_LEVEL <= r <= HIGH_LEVEL,
{
    let t = clamped_travel(elapsed_us);
    LOW_LEVEL + t
}

/// The travel of a ramp never decreases as time goes on.
proof fn travel_monotone(a: int, b: int)
    requires
        0 <= a <= b,
    ensures
        0 <= ramp_travel(a) <= ramp_travel(b),
{
    assert(0 <= LEVEL_SPAN as int * a <= LEVEL_SPAN as int * b) by (nonlinear_arith)
        requires
            0 <= a <= b,
    ;
    vstd::arithmetic::div_mod::lemma_div_is_ordered(
        LEVEL_SPAN as int * a,
        LEVEL_SPAN as int * b,
        DECAY_US as int,
    );
    vstd::arithmetic::div_mod::lemma_div_pos_is_pos(LEVEL_SPAN as int * a, DECAY_US as int);
}

/// Within a ramp, travel stays within the span and reaches it at the ramp's end.
proof fn travel_within_ramp(elapsed: int)
    requires
        0 <= elapsed <= DECAY_US,
    ensures
        ramp_travel(elapsed) <= LEVEL_SPAN,
        elapsed == DECAY_US ==> ramp_travel(elapsed) == LEVEL_SPAN,
{
    travel_monotone(elapsed, DECAY_US as int);
    assert(ramp_travel(DECAY_US as int) == LEVEL_SPAN as int);
}

/// Over a ramp, the falling level never rises and the rising level never falls,
/// and both stay between the two levels.
pub proof fn ramps_monotone(a: int, b: int)
    requires
        0 <= a <= b <= DECAY_US,
    ensures
        falling_level(b) <= falling_level(a),
        rising_level(a) <= rising_level(b),
        LOW_LEVEL <= falling_level(a) <= HIGH_LEVEL,
        LOW_LEVEL <= falling_level(b) <= HIGH_LEVEL,
        LOW_LEVEL <= rising_level(a) <= HIGH_LEVEL,
        LOW_LEVEL <= rising_level(b) <= HIGH_LEVEL,
{
    travel_monotone(a, b);
    travel_within_ramp(b);
}

/// A ramp starts at its own level and ends at the other one, however far time
/// has run past the ramp's duration.
pub proof fn ramp_end_points(elapsed: int)
    requires
        elapsed >= DECAY_US,
    ensures
        falling_level(0) == HIGH_LEVEL,
        rising_level(0) == LOW_LEVEL,
        falling_level(elapsed) == LOW_LEVEL,
        rising_level(elapsed) == HIGH_LEVEL,
{
    travel_monotone(DECAY_US as int, elapsed);
    travel_within_ramp(DECAY_US as int);
}

/// Within a ramp the unclamped falling value `HIGH_LEVEL - travel` stays at or
/// above `LOW_LEVEL`, so it never goes below zero; and for any elapsed time the
/// clamped levels of both ramps are valid 12-bit converter codes.
pub proof fn levels_fit_converter(elapsed: int)
    requires
        elapsed >= 0,
    ensures
        elapsed <= DECAY_US ==> HIGH_LEVEL - ramp_travel(elapsed) >= LOW_LEVEL >= 0,
        0 <= falling_level(elapsed) <= DAC_MAX,
        0 <= rising_level(elapsed) <= DAC_MAX,
{
    travel_monotone(0, elapsed);
    if elapsed <= DECAY_US {
        travel_within_ramp(elapsed);
    }
}

} // verus!
