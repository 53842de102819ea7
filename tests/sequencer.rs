use tone_envelope::envelope::{
    falling_ramp_level, rising_ramp_level, DAC_MAX, DECAY_US, HIGH_LEVEL, HOLD_US, LEVEL_SPAN,
    LOW_LEVEL, TICK_US,
};
use tone_envelope::sequencer::{Action, Milestone, Phase, Sequencer};

fn decay_state(phase: Phase, elapsed_us: u32) -> Sequencer {
    Sequencer::at(phase, elapsed_us).expect("state within the cycle")
}

#[test]
fn boot_state_is_high_hold() {
    let s = Sequencer::new();
    assert_eq!(s.phase(), Phase::HighHold);
    assert_eq!(s.elapsed_us(), 0);
}

#[test]
fn high_hold_writes_high_and_holds() {
    let mut s = Sequencer::new();
    let a = s.on_expiry();
    assert_eq!(
        a,
        Action { output: 0x0599, rearm_us: 950_000, note: Some(Milestone::EnteredHighHold) }
    );
    assert_eq!(s.phase(), Phase::HighDecay);
    assert_eq!(s.elapsed_us(), 0);
}

#[test]
fn low_hold_writes_low_and_holds() {
    let mut s = decay_state(Phase::LowHold, 0);
    let a = s.on_expiry();
    assert_eq!(
        a,
        Action { output: 0x0200, rearm_us: 950_000, note: Some(Milestone::EnteredLowHold) }
    );
    assert_eq!(s.phase(), Phase::LowDecay);
    assert_eq!(s.elapsed_us(), 0);
}

#[test]
fn first_falling_tick() {
    let mut s = decay_state(Phase::HighDecay, 0);
    let a = s.on_expiry();
    // floor(921 * 75 / 100000) == 0
    assert_eq!(a, Action { output: 0x0599, rearm_us: 75, note: None });
    assert_eq!(s.phase(), Phase::HighDecay);
    assert_eq!(s.elapsed_us(), 75);
}

#[test]
fn falling_ramp_midway() {
    // floor(0x399 * 37500 / 100000) == floor(345.375) == 345
    let mut s = Sequencer::new();
    let mut last = s.on_expiry();
    for _ in 0..500 {
        last = s.on_expiry();
    }
    assert_eq!(s.phase(), Phase::HighDecay);
    assert_eq!(s.elapsed_us(), 37_500);
    assert_eq!(last.output, 0x0599 - 345);
    assert_eq!(last.output, 0x0440);
    assert_eq!(last.rearm_us, 75);
}

#[test]
fn rising_ramp_midway() {
    let mut s = decay_state(Phase::LowDecay, 37_425);
    let a = s.on_expiry();
    assert_eq!(a.output, 0x0200 + 345);
    assert_eq!(s.phase(), Phase::LowDecay);
    assert_eq!(s.elapsed_us(), 37_500);
}

#[test]
fn falling_ramp_ends_in_low_hold() {
    let mut s = decay_state(Phase::HighDecay, 99_975);
    let a = s.on_expiry();
    assert_eq!(a, Action { output: 0x0200, rearm_us: 75, note: None });
    assert_eq!(s.phase(), Phase::LowHold);
    assert_eq!(s.elapsed_us(), 0);
}

#[test]
fn rising_ramp_ends_in_high_hold() {
    let mut s = decay_state(Phase::LowDecay, 99_975);
    let a = s.on_expiry();
    assert_eq!(a, Action { output: 0x0599, rearm_us: 75, note: None });
    assert_eq!(s.phase(), Phase::HighHold);
    assert_eq!(s.elapsed_us(), 0);
}

#[test]
fn last_tick_is_not_shortened() {
    let mut s = decay_state(Phase::HighDecay, 99_900);
    let a = s.on_expiry();
    assert_eq!(a.rearm_us, TICK_US);
    assert_eq!(s.phase(), Phase::HighDecay);
    assert_eq!(s.elapsed_us(), 99_975);
    let a = s.on_expiry();
    assert_eq!(a.rearm_us, TICK_US);
    assert_eq!(s.phase(), Phase::LowHold);
}

#[test]
fn states_outside_the_cycle_are_refused() {
    assert!(Sequencer::at(Phase::HighHold, 75).is_none());
    assert!(Sequencer::at(Phase::LowHold, 1).is_none());
    assert!(Sequencer::at(Phase::HighDecay, 100_000).is_none());
    assert!(Sequencer::at(Phase::LowDecay, u32::MAX).is_none());
    assert!(Sequencer::at(Phase::LowDecay, 99_999).is_some());
}

#[test]
fn full_cycle_returns_to_boot_state() {
    let steps = 2 * (1 + (DECAY_US + TICK_US - 1) / TICK_US);
    assert_eq!(steps, 2670);
    let mut s = Sequencer::new();
    let mut holds = 0;
    for i in 0..steps {
        let a = s.on_expiry();
        if a.rearm_us == HOLD_US {
            holds += 1;
        }
        if i + 1 < steps {
            assert!(!(s.phase() == Phase::HighHold && s.elapsed_us() == 0));
        }
    }
    assert_eq!(holds, 2);
    assert_eq!(s.phase(), Phase::HighHold);
    assert_eq!(s.elapsed_us(), 0);
}

#[test]
fn ramps_are_monotone_and_bounded() {
    let mut prev_fall = falling_ramp_level(0);
    let mut prev_rise = rising_ramp_level(0);
    assert_eq!(prev_fall, HIGH_LEVEL);
    assert_eq!(prev_rise, LOW_LEVEL);
    let mut e: u32 = 0;
    while e <= DECAY_US {
        let f = falling_ramp_level(e);
        let r = rising_ramp_level(e);
        assert!(f <= prev_fall && LOW_LEVEL <= f && f <= HIGH_LEVEL);
        assert!(r >= prev_rise && LOW_LEVEL <= r && r <= HIGH_LEVEL);
        prev_fall = f;
        prev_rise = r;
        e += 1;
    }
    assert_eq!(prev_fall, LOW_LEVEL);
    assert_eq!(prev_rise, HIGH_LEVEL);
}

#[test]
fn overshoot_is_clamped() {
    assert_eq!(falling_ramp_level(100_050), LOW_LEVEL);
    assert_eq!(rising_ramp_level(100_050), HIGH_LEVEL);
    assert_eq!(falling_ramp_level(u32::MAX), LOW_LEVEL);
    assert_eq!(rising_ramp_level(u32::MAX), HIGH_LEVEL);
    assert!(falling_ramp_level(u32::MAX) <= DAC_MAX);
    assert!(rising_ramp_level(u32::MAX) <= DAC_MAX);
}

#[test]
fn constants_agree() {
    assert_eq!(LEVEL_SPAN, HIGH_LEVEL - LOW_LEVEL);
    assert_eq!(LEVEL_SPAN, 0x0399);
}
