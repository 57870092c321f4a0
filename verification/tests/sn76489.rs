use dro_synth::chip::{ChipCore, ChipSettings};
use dro_synth::cores::sn76489::{Sn76489, DEFAULT_WIDTH, LEVELS, PEAK};

/// A chip clocked as a Master System's, and silent to start with.
fn chip() -> Sn76489 {
    let mut chip = Sn76489::new();
    chip.reset(3_579_545, false);
    chip
}

/// Renders `frames` and returns the left channel of each.
fn render(chip: &mut Sn76489, frames: usize) -> Vec<i32> {
    let mut out = vec![0i32; frames * 2];
    chip.render(&mut out);
    out.chunks_exact(2).map(|frame| frame[0]).collect()
}

/// The Game Gear stereo mask (`addr` 1) must not be read as a latch byte.
/// `0xFF` -- "everything to both speakers", written by 68% of the corpus's
/// SN76489 files -- parses as "noise volume, attenuation 15" otherwise,
/// and the mask corrupts the latch for the data byte after it too.
#[test]
fn a_game_gear_stereo_mask_is_not_a_latch_byte() {
    let mut chip = chip();
    chip.write(0, 0, 0xF0); // latch: noise volume, full
    let loud: i64 = render(&mut chip, 200)
        .iter()
        .map(|&s| i64::from(s.abs()))
        .sum();
    assert!(loud > 0, "the noise channel sounds");

    chip.write(0, 1, 0xFF); // the stereo mask, on its own address
    let after: i64 = render(&mut chip, 200)
        .iter()
        .map(|&s| i64::from(s.abs()))
        .sum();
    assert!(after > 0, "a mask is not \"noise volume, attenuation 15\"");

    // And the latch survives it: a mask between a latch byte and its data
    // byte must not redirect the data byte.
    chip.write(0, 0, 0x8E); // latch: tone 0 period, low nibble 0xE
    chip.write(0, 1, 0xFF); // mask in between
    chip.write(0, 0, 0x1F); // data: the period's high six bits
    assert_eq!(chip.tones[0].period, (0x1F << 4) | 0xE);
}

#[test]
fn the_volume_table_is_two_decibels_a_step() {
    for (step, &level) in LEVELS.iter().enumerate().take(15) {
        // Amplitude, so 20 log10 -- see the note on LEVELS for what
        // getting this wrong cost and what caught it.
        let expected = (f64::from(PEAK) * 10f64.powf(-2.0 * step as f64 / 20.0)).round() as i32;
        assert_eq!(level, expected, "step {step}");
    }
    assert_eq!(LEVELS[15], 0, "the last step is off, not quiet");

    // Two steps must halve the amplitude *four* times over fifteen steps,
    // not eight: an independent statement of the same fact, so a future
    // edit cannot make the formula and the table agree on something wrong
    // together the way the previous pair did.
    let full = f64::from(LEVELS[0]);
    let quietest = f64::from(LEVELS[14]);
    let span_db = 20.0 * (full / quietest).log10();
    assert!(
        (span_db - 28.0).abs() < 0.1,
        "fourteen steps of 2 dB is 28 dB of range, not {span_db:.1}"
    );
}

#[test]
fn the_native_rate_is_the_clock_over_sixteen() {
    let chip = chip();
    assert_eq!(chip.native_rate(), 3_579_545 / 16);
}

#[test]
fn a_latch_byte_and_a_data_byte_make_a_ten_bit_period() {
    let mut chip = chip();
    // 0x80 | 0x0E: latch tone 0's period, low nibble 0x0E.
    chip.write(0, 0, 0x8E);
    assert_eq!(chip.tones[0].period, 0x00E);
    // 0x3F: the high six bits.
    chip.write(0, 0, 0x3F);
    assert_eq!(chip.tones[0].period, 0x3FE);
    // A second data byte replaces only the high bits again.
    chip.write(0, 0, 0x01);
    assert_eq!(chip.tones[0].period, 0x01E);
}

#[test]
fn a_volume_latch_writes_four_bits_and_stays_latched() {
    let mut chip = chip();
    chip.write(0, 0, 0x90); // latch tone 0's volume, 0 = loudest
    assert_eq!(chip.tones[0].attenuation, 0x00);
    // A following data byte writes the volume again, not a period.
    chip.write(0, 0, 0x07);
    assert_eq!(chip.tones[0].attenuation, 0x07);
    assert_eq!(chip.tones[0].period, 0, "the period was never touched");
}

#[test]
fn each_channel_has_its_own_registers() {
    let mut chip = chip();
    chip.write(0, 0, 0xA0); // tone 1 period, low nibble 0
    chip.write(0, 0, 0x02); // high bits
    chip.write(0, 0, 0xC5); // tone 2 period, low nibble 5
    chip.write(0, 0, 0xB1); // tone 1 volume 1
    assert_eq!(chip.tones[1].period, 0x020);
    assert_eq!(chip.tones[2].period, 0x005);
    assert_eq!(chip.tones[1].attenuation, 1);
    assert_eq!(
        chip.tones[0].attenuation, 0x0F,
        "untouched, so still silent"
    );
}

#[test]
fn a_tone_flips_every_period_ticks() {
    let mut chip = chip();
    chip.write(0, 0, 0x84); // tone 0 period = 4
    chip.write(0, 0, 0x00);
    chip.write(0, 0, 0x90); // tone 0 at full volume
    // Everything else silent, so the sum is this channel alone.
    let samples = render(&mut chip, 16);
    // It starts low, flips after four ticks, and holds four at a time.
    let signs: Vec<i32> = samples.iter().map(|&s| s.signum()).collect();
    assert_eq!(
        signs,
        [1, 1, 1, 1, -1, -1, -1, -1, 1, 1, 1, 1, -1, -1, -1, -1],
        "a square wave of period 4, in ticks per half-cycle"
    );
}

#[test]
fn a_period_sounds_at_the_frequency_the_datasheet_says() {
    // f = clock / (32 x period). A period of 254 at 3.579545 MHz is an A
    // just above concert pitch, which is what a Master System playing 440 Hz
    // actually writes.
    const CLOCK: u32 = 3_579_545;
    const PERIOD: u32 = 254;
    let mut chip = chip();
    chip.write(0, 0, 0x80 | (PERIOD & 0x0F) as u16);
    chip.write(0, 0, (PERIOD >> 4) as u16);
    chip.write(0, 0, 0x90);

    // Count the rising edges over a second of the chip's own rate.
    let rate = chip.native_rate() as usize;
    let samples = render(&mut chip, rate);
    let edges = samples
        .windows(2)
        .filter(|pair| pair[0] < 0 && pair[1] > 0)
        .count();

    let expected = CLOCK as f64 / (32.0 * f64::from(PERIOD));
    assert!(
        (edges as f64 - expected).abs() < 2.0,
        "{edges} cycles a second, the datasheet says {expected:.1}"
    );
}

#[test]
fn a_zero_period_holds_the_output_high() {
    // What sample playback through the volume register depends on.
    let mut chip = chip();
    chip.write(0, 0, 0x80); // tone 0 period = 0
    chip.write(0, 0, 0x00);
    chip.write(0, 0, 0x90); // full volume
    let samples = render(&mut chip, 8);
    assert!(
        samples.iter().all(|&s| s > 0),
        "a zero period never expires, so the output never flips: {samples:?}"
    );
}

#[test]
fn silence_is_silence() {
    // Every channel at full attenuation sums to nothing at all.
    let mut chip = chip();
    chip.write(0, 0, 0x84);
    chip.write(0, 0, 0x00);
    assert_eq!(render(&mut chip, 32), vec![0; 32]);
}

#[test]
fn periodic_noise_repeats_and_white_noise_does_not() {
    // The shift register is 16 bits, so periodic noise cycles in 16 shifts.
    let mut periodic = chip();
    periodic.write(0, 0, 0xE0); // noise: periodic, fastest rate
    periodic.write(0, 0, 0xF0); // noise at full volume
    let period = 0x10 * 2; // ticks per shift: the divisor, halved twice over
    let run = render(&mut periodic, period * 16 * 2);
    let (first, second) = run.split_at(period * 16);
    assert_eq!(first, second, "periodic noise is periodic");

    let mut white = chip();
    white.write(0, 0, 0xE4); // noise: white, fastest rate
    white.write(0, 0, 0xF0);
    let run = render(&mut white, period * 16 * 2);
    let (first, second) = run.split_at(period * 16);
    assert_ne!(first, second, "white noise is not");
}

/// The header's noise shape has to reach the noise channel, and reaching it
/// has to *change* the sound. Every SN76489 file in the corpus declares the
/// 15-bit TI part while this core defaulted to the 16-bit Sega one, so for
/// every one of them the noise was an unrelated sequence -- a fault no
/// local test could see, because both sequences are perfectly good noise.
#[test]
fn the_headers_noise_shape_reaches_the_shift_register() {
    fn noise_with(feedback: u16, width: u8) -> Vec<i32> {
        let mut chip = chip();
        chip.configure(&ChipSettings {
            sn76489_feedback: feedback,
            sn76489_shift_width: width,
            ..Default::default()
        });
        chip.write(0, 0, 0xE4); // white noise, fastest rate
        chip.write(0, 0, 0xF0); // full volume
        render(&mut chip, 0x10 * 2 * 40)
    }

    let sega = noise_with(0x0009, 16);
    let ti = noise_with(0x0003, 15);
    assert_ne!(sega, ti, "two parts, two sequences");

    // Periodic noise cycles in exactly as many shifts as the register is
    // wide, which is the sharpest statement that the width took effect.
    fn periodic_cycle(width: u8) -> usize {
        let mut chip = chip();
        chip.configure(&ChipSettings {
            sn76489_feedback: 0x0003,
            sn76489_shift_width: width,
            ..Default::default()
        });
        chip.write(0, 0, 0xE0); // periodic, fastest rate
        chip.write(0, 0, 0xF0);
        let step = 0x10 * 2;
        let run = render(&mut chip, step * usize::from(width) * 2);
        let (first, second) = run.split_at(step * usize::from(width));
        assert_eq!(
            first, second,
            "width {width} should cycle in {width} shifts"
        );
        usize::from(width)
    }
    assert_eq!(periodic_cycle(15), 15);
    assert_eq!(periodic_cycle(16), 16);
    // Seventeen, because the corpus asks for it and a `u16` register
    // cannot answer.
    assert_eq!(periodic_cycle(17), 17);

    // A blank or impossible header leaves the compiled-in shape alone,
    // rather than producing noise nothing downstream could account for.
    let mut chip = chip();
    let before = chip.noise.taps;
    chip.configure(&ChipSettings::default());
    assert_eq!(chip.noise.taps, before);
    assert_eq!(chip.noise.width, DEFAULT_WIDTH);
    chip.configure(&ChipSettings {
        sn76489_shift_width: 200,
        ..Default::default()
    });
    assert_eq!(
        chip.noise.width, DEFAULT_WIDTH,
        "a corrupt width is refused"
    );
}

#[test]
fn writing_the_noise_register_restarts_the_shift_register() {
    // A drum hit starts from the same noise every time.
    let mut chip = chip();
    chip.write(0, 0, 0xE4);
    chip.write(0, 0, 0xF0);
    let first = render(&mut chip, 200);
    chip.write(0, 0, 0xE4);
    let again = render(&mut chip, 200);
    assert_eq!(first, again);
}

#[test]
fn noise_rate_three_follows_tone_two() {
    let mut chip = chip();
    chip.write(0, 0, 0xC8); // tone 2 period = 8
    chip.write(0, 0, 0x00);
    chip.write(0, 0, 0xE3); // noise: periodic, rate 3
    assert_eq!(chip.noise.period(chip.tones[2].period), 8);
    // And it moves when tone 2 does.
    chip.write(0, 0, 0xC2);
    chip.write(0, 0, 0x00);
    assert_eq!(chip.noise.period(chip.tones[2].period), 2);
}

#[test]
fn a_reset_silences_everything_it_was_told() {
    let mut chip = chip();
    chip.write(0, 0, 0x84);
    chip.write(0, 0, 0x90);
    chip.reset(3_579_545, false);
    assert_eq!(render(&mut chip, 8), vec![0; 8]);
    assert_eq!(chip.tones[0].period, 0);
    assert_eq!(chip.tones[0].attenuation, 0x0F);
}

#[test]
fn a_full_chip_stays_inside_the_mixers_headroom() {
    let mut chip = chip();
    for latch in [0x80, 0xA0, 0xC0] {
        chip.write(0, 0, latch | 0x01);
        chip.write(0, 0, 0x00);
    }
    chip.write(0, 0, 0xE4);
    for volume in [0x90, 0xB0, 0xD0, 0xF0] {
        chip.write(0, 0, volume);
    }
    let peak = render(&mut chip, 4096)
        .into_iter()
        .map(i32::abs)
        .max()
        .unwrap_or(0);
    assert!(
        peak <= PEAK * 4 && peak > PEAK,
        "four channels flat out: {peak}"
    );
    assert!(
        peak < i32::from(i16::MAX),
        "and still short of clipping the mix on its own"
    );
}
