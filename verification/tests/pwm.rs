use dro_synth::chip::ChipCore;
use dro_synth::cores::pwm::Pwm;


/// The 32X master clock.
const CLOCK: u32 = 23_011_360;

#[test]
fn the_rate_is_the_standard_cycle() {
    let mut chip = Pwm::new();
    chip.reset(CLOCK, false);
    assert_eq!(chip.native_rate(), CLOCK / 1042);
}

/// A centred duty is silence; the extremes swing both ways; the `both`
/// register writes the pair at once.
#[test]
fn duties_map_to_centred_samples() {
    let mut chip = Pwm::new();
    chip.reset(CLOCK, false);
    chip.write(0, 1, 1042);
    chip.write(0, 2, 521);
    chip.write(0, 3, 521);
    let mut out = [0i32; 2];
    chip.render(&mut out);
    assert_eq!(out, [0, 0], "the centre is silence");

    chip.write(0, 2, 1042); // full left duty
    chip.write(0, 3, 0);
    chip.render(&mut out);
    assert!(out[0] > 7000, "full duty swings positive: {}", out[0]);
    assert!(out[1] < -7000, "zero duty swings negative: {}", out[1]);

    chip.write(0, 4, 521);
    chip.render(&mut out);
    assert_eq!(out, [0, 0], "the both-register recentres the pair");
}

/// A cycle write recentres both duties, so it sounds as silence.
#[test]
fn a_cycle_write_recentres_both_sides() {
    let mut chip = Pwm::new();
    chip.reset(23_011_360, false);
    chip.write(0, 2, 4000);
    chip.write(0, 1, 600);
    assert_eq!(chip.cycle, 600);
    let mut out = [1i32; 4];
    chip.render(&mut out);
    assert_eq!(out, [0, 0, 0, 0]);
}

/// A duty past the cycle is held at the cycle: full swing, not beyond.
#[test]
fn a_duty_past_the_cycle_is_held_at_full_swing() {
    let mut chip = Pwm::new();
    chip.write(0, 1, 1000);
    chip.write(0, 2, 0xFFF);
    chip.write(0, 3, 0);
    let mut out = [0i32; 2];
    chip.render(&mut out);
    assert_eq!(out, [(1000 - 500) * 16_000 / 1000, -500 * 16_000 / 1000]);
}
