use dro_synth::chip::ChipCore;
use dro_synth::cores::ay8910::{Ay8910, Envelope, LEVELS, PEAK};

/// A common AY clock: half the NTSC colour burst.
const CLOCK: u32 = 1_789_773;

fn render(chip: &mut Ay8910, frames: usize) -> Vec<i32> {
    let mut out = vec![0i32; frames * 2];
    chip.render(&mut out);
    out.chunks_exact(2).map(|frame| frame[0]).collect()
}

fn energy(samples: &[i32]) -> i64 {
    samples.iter().map(|&s| i64::from(s.abs())).sum()
}

#[test]
fn the_volume_curve_is_one_and_a_half_decibels_a_step() {
    assert_eq!(LEVELS[0], 0, "the bottom step is off, not quiet");
    for (step, &level) in LEVELS.iter().enumerate().skip(1) {
        let expected = f64::from(PEAK) * 10f64.powf(-1.5 * (31 - step) as f64 / 20.0);
        assert_eq!(level, expected.round() as i32, "step {step}");
    }
    assert_eq!(LEVELS[31], PEAK, "the top step is full scale");
    let ratio = f64::from(LEVELS[31]) / f64::from(LEVELS[27]);
    assert!((1.9..=2.1).contains(&ratio), "four steps came to {ratio}x");
}

#[test]
fn ay8910_a_tone_sounds_at_the_documented_frequency() {
    let mut chip = Ay8910::new();
    chip.reset(CLOCK, false);
    chip.write(0, 0, 0x40);
    chip.write(0, 1, 0x00);
    chip.write(0, 7, 0x3E);
    chip.write(0, 8, 0x0F);

    let ticks = Ay8910::tick_rate(CLOCK);
    let mut flips = 0u32;
    let mut last = chip.tones[0].output;
    for _ in 0..ticks {
        chip.tick();
        if chip.tones[0].output != last {
            flips += 1;
        }
        last = chip.tones[0].output;
    }
    let cycles = flips / 2;
    let expected = CLOCK / (16 * 0x40);
    let drift = cycles.abs_diff(expected);
    assert!(
        drift * 200 <= expected,
        "counted {cycles} cycles a second, expected about {expected}"
    );
}

#[test]
fn the_mixer_bits_disable_rather_than_enable() {
    let mut chip = Ay8910::new();
    chip.reset(CLOCK, false);
    chip.write(0, 8, 0x0F);

    chip.write(0, 7, 0xFF);
    let open = render(&mut chip, 500);
    assert!(
        open.iter().all(|&s| s == LEVELS[31]),
        "a channel with nothing selected must sit at full amplitude"
    );

    chip.write(0, 0, 0x20);
    chip.write(0, 7, 0xFE);
    let square = render(&mut chip, 2000);
    assert!(square.contains(&0), "the output must close sometimes");
    assert!(square.iter().any(|&s| s != 0), "and open sometimes");
}

#[test]
fn a_fixed_volume_uses_the_coarse_half_of_the_curve() {
    let mut chip = Ay8910::new();
    chip.reset(CLOCK, false);
    chip.write(0, 7, 0xFF);
    chip.write(0, 9, 0x00);
    chip.write(0, 10, 0x00);

    chip.write(0, 8, 0x00);
    assert_eq!(render(&mut chip, 100)[0], 0, "volume 0 is off, not quiet");

    chip.write(0, 8, 0x01);
    assert_eq!(render(&mut chip, 100)[0], LEVELS[3], "volume 1 is the floor");

    chip.write(0, 8, 0x0F);
    assert_eq!(render(&mut chip, 100)[0], LEVELS[31], "volume 15 is the top");

    chip.write(0, 8, 0x07);
    assert_eq!(render(&mut chip, 100)[0], LEVELS[15], "volume 7 is halfway up");
}

#[test]
fn the_envelope_shapes_end_where_they_should() {
    fn settle(shape: u8) -> u8 {
        let mut envelope = Envelope::new();
        envelope.set_shape(shape);
        for _ in 0..(32 * 8) {
            envelope.clock();
        }
        envelope.level()
    }

    for shape in 0x00..=0x07u8 {
        assert_eq!(settle(shape), 0, "shape {shape:#04x} must decay to silence");
    }
    let mut sawtooth = Envelope::new();
    sawtooth.set_shape(0x08);
    for _ in 0..(32 * 8) {
        sawtooth.clock();
    }
    assert!(!sawtooth.holding, "a repeating shape must not hold");
    assert_eq!(settle(0x09), 0);
    assert_eq!(settle(0x0B), 31);
    assert_eq!(settle(0x0D), 31, "attack + hold holds at the top");
    assert_eq!(settle(0x0F), 0, "attack + alternate + hold holds at the bottom");
}

#[test]
fn writing_the_shape_register_retriggers_the_envelope() {
    let mut chip = Ay8910::new();
    chip.reset(CLOCK, false);
    chip.write(0, 13, 0x09);
    for _ in 0..2000 {
        chip.tick();
    }
    assert!(chip.envelope.holding, "it should have finished");

    chip.write(0, 13, 0x09);
    assert!(!chip.envelope.holding, "the write must restart it");
    assert_eq!(chip.envelope.step, 0);
}

#[test]
fn the_noise_register_runs_at_half_the_tone_rate() {
    let mut chip = Ay8910::new();
    chip.reset(CLOCK, false);
    chip.write(0, 0, 0x01);
    chip.write(0, 6, 0x01);

    let (mut tone_flips, mut noise_flips) = (0u32, 0u32);
    let (mut last_t, mut last_n) = (chip.tones[0].output, chip.noise.output());
    for _ in 0..20_000 {
        chip.tick();
        if chip.tones[0].output != last_t {
            tone_flips += 1;
        }
        if chip.noise.output() != last_n {
            noise_flips += 1;
        }
        last_t = chip.tones[0].output;
        last_n = chip.noise.output();
    }
    assert!(noise_flips > 0, "the noise register must run");
    assert!(
        tone_flips > noise_flips,
        "noise at the same period must be slower: {tone_flips} vs {noise_flips}"
    );
}

#[test]
fn ay8910_a_zero_period_behaves_as_one() {
    let mut chip = Ay8910::new();
    chip.reset(CLOCK, false);
    chip.write(0, 0, 0x00);
    chip.write(0, 1, 0x00);
    chip.write(0, 6, 0x00);
    chip.write(0, 11, 0x00);
    chip.write(0, 12, 0x00);
    chip.write(0, 13, 0x08);
    chip.write(0, 7, 0x38);
    chip.write(0, 8, 0x10);
    let out = render(&mut chip, 4000);
    assert!(energy(&out) > 0, "a zero period must still run");
}

#[test]
fn the_native_rate_divides_the_clock_by_eight() {
    let mut chip = Ay8910::new();
    chip.reset(CLOCK, false);
    assert_eq!(chip.native_rate(), CLOCK / 8);
    chip.reset(0, false);
    assert!(chip.native_rate() >= 1, "a zero clock must not divide to zero");
}

#[test]
fn ay8910_the_output_does_not_depend_on_how_the_caller_chunks_it() {
    fn set_up(chip: &mut Ay8910) {
        chip.reset(CLOCK, false);
        for (register, value) in [
            (0u16, 0x40u16),
            (2, 0x60),
            (4, 0x80),
            (6, 0x0F),
            (7, 0x00),
            (8, 0x0F),
            (9, 0x10),
            (10, 0x0A),
            (11, 0x00),
            (12, 0x01),
            (13, 0x0E),
        ] {
            chip.write(0, register, value);
        }
    }
    let mut whole = Ay8910::new();
    set_up(&mut whole);
    let mut one_go = vec![0i32; 2048 * 2];
    whole.render(&mut one_go);

    let mut chunked = Ay8910::new();
    set_up(&mut chunked);
    let mut piecemeal = vec![0i32; 2048 * 2];
    for chunk in piecemeal.chunks_mut(64 * 2) {
        chunked.render(chunk);
    }
    assert_eq!(one_go, piecemeal);
}

#[test]
fn ay8910_a_full_chip_uses_the_range_without_clipping_it() {
    let mut chip = Ay8910::new();
    chip.reset(CLOCK, false);
    chip.write(0, 7, 0xFF);
    for register in 8..=10 {
        chip.write(0, register, 0x0F);
    }
    let loudest = render(&mut chip, 500)
        .iter()
        .map(|&s| s.abs())
        .max()
        .unwrap_or(0);
    assert_eq!(loudest, PEAK * 3, "three channels at the top");
    assert!(
        loudest < i32::from(i16::MAX),
        "three channels must not need the mixer's clamp on their own"
    );
}
