use dro_synth::chip::ChipCore;
use dro_synth::cores::nes_apu::{NesApu, Noise, CYCLES_PER_SAMPLE, LENGTH_TABLE, PEAK, PULSE_TABLE, TND_TABLE};


/// The NTSC CPU clock, which is what a VGM header carries for this chip.
const NTSC: u32 = 1_789_773;

fn render(chip: &mut NesApu, frames: usize) -> Vec<i32> {
    let mut out = vec![0i32; frames * 2];
    chip.render(&mut out);
    out.chunks_exact(2).map(|frame| frame[0]).collect()
}

fn energy(samples: &[i32]) -> i64 {
    samples.iter().map(|&s| i64::from(s.abs())).sum()
}

/// Whether a render has *stopped*, as opposed to never having started.
///
/// Cutting a channel does not put zeroes on the wire: the DC blocker is a
/// filter with a tail, and it rings down over a few milliseconds exactly as
/// the coupling capacitor it stands in for does. So a silenced channel is
/// judged by where the render ends up, not by the whole window being zero
/// -- which would be asserting the blocker away.
fn falls_silent(samples: &[i32]) -> bool {
    let tail = &samples[samples.len() * 3 / 4..];
    tail.iter().all(|&s| s.abs() < PEAK / 200)
}

/// Every number in the mixer tables, recomputed from the documented
/// formulas rather than trusted.
///
/// The tables exist because [`ChipCore`] forbids output that could differ
/// across targets, and floating point is how that promise gets broken; this
/// is what keeps them honest to the arithmetic they stand in for.
#[test]
fn the_mixer_tables_match_the_documented_formulas() {
    assert_eq!(PULSE_TABLE[0], 0, "silence is silence");
    for (n, &value) in PULSE_TABLE.iter().enumerate().skip(1) {
        let expected = f64::from(PEAK) * 95.52 / (8128.0 / n as f64 + 100.0);
        assert_eq!(value, expected.round() as i32, "pulse {n}");
    }
    assert_eq!(TND_TABLE[0], 0);
    for (n, &value) in TND_TABLE.iter().enumerate().skip(1) {
        let expected = f64::from(PEAK) * 163.67 / (24329.0 / n as f64 + 100.0);
        assert_eq!(value, expected.round() as i32, "tnd {n}");
    }
    // The formulas are normalised so everything at once approaches full
    // scale. If that stopped being true the chip would clip or whisper.
    let loudest = PULSE_TABLE[30] + TND_TABLE[202];
    assert!(
        (PEAK * 99 / 100..=PEAK * 101 / 100).contains(&loudest),
        "everything at once came to {loudest}, not about {PEAK}"
    );
}

/// The length table has no formula behind it, so what can be checked is its
/// documented shape: the odd entries after the first count 2, 4, 6 ... 30,
/// which is the half a driver uses for ordinary note lengths. Entry 1 is
/// 254, the outlier that makes a note effectively hold.
#[test]
fn the_length_table_is_the_documented_one() {
    let odd: Vec<u8> = LENGTH_TABLE.iter().skip(3).step_by(2).copied().collect();
    assert_eq!(
        odd,
        (1..=15).map(|n| n * 2).collect::<Vec<u8>>(),
        "the odd entries after the first count 2, 4, 6 ... 30"
    );
    assert_eq!(LENGTH_TABLE[1], 254, "the hold-forever entry");
    assert_eq!(LENGTH_TABLE[0], 10);
    assert_eq!(LENGTH_TABLE[2], 20);
}

/// A pulse's period sets its pitch as `CPU / (16 * (t + 1))`. Counted in
/// edges rather than asserted from the formula, the same way the SN76489
/// core counts its own.
#[test]
fn nes_apu_a_pulse_sounds_at_the_documented_frequency() {
    let mut chip = NesApu::new();
    chip.reset(NTSC, false);
    chip.write(0, 0x15, 0x01); // enable pulse 1
    chip.write(0, 0x00, 0xBF); // 50% duty, constant volume 15, halt length
    chip.write(0, 0x02, 0xFD); // period low
    chip.write(0, 0x03, 0x00); // period high 0 -> timer 0xFD
    let timer = chip.pulses[0].timer;
    assert_eq!(timer, 0xFD);

    // Count sequencer wraps over a known number of CPU cycles.
    let cycles = NTSC; // one second
    let mut wraps = 0u32;
    let mut last = chip.pulses[0].step;
    for _ in 0..cycles {
        chip.clock_cpu();
        let step = chip.pulses[0].step;
        if step == 0 && last == 7 {
            wraps += 1;
        }
        last = step;
    }
    let expected = NTSC / (16 * (u32::from(timer) + 1));
    let drift = wraps.abs_diff(expected);
    assert!(
        drift <= 1,
        "counted {wraps} cycles a second, expected about {expected}"
    );
}

/// The triangle ticks on every CPU cycle where the pulses tick on every
/// other, so the same period is an octave apart. That relationship is the
/// one worth pinning: it is what a driver relies on when it writes the same
/// value to both.
#[test]
fn the_triangle_runs_twice_as_fast_as_a_pulse_for_the_same_period() {
    let mut chip = NesApu::new();
    chip.reset(NTSC, false);
    chip.write(0, 0x15, 0x05); // pulse 1 + triangle
    chip.write(0, 0x00, 0xBF);
    chip.write(0, 0x02, 0x40);
    chip.write(0, 0x03, 0x08);
    chip.write(0, 0x08, 0xFF); // triangle: control set, linear counter max
    chip.write(0, 0x0A, 0x40);
    chip.write(0, 0x0B, 0x08);

    let cycles = NTSC / 4;
    let (mut pulse_wraps, mut tri_wraps) = (0u32, 0u32);
    let (mut last_p, mut last_t) = (chip.pulses[0].step, chip.triangle.step);
    for _ in 0..cycles {
        chip.clock_cpu();
        if chip.pulses[0].step == 0 && last_p == 7 {
            pulse_wraps += 1;
        }
        if chip.triangle.step == 0 && last_t == 31 {
            tri_wraps += 1;
        }
        last_p = chip.pulses[0].step;
        last_t = chip.triangle.step;
    }
    assert!(pulse_wraps > 0 && tri_wraps > 0, "both must run");
    // Pulse: CPU / (16 * (t+1)). Triangle: CPU / (32 * (t+1)). The
    // triangle's sequence is 32 steps to the pulse's 8, so its *wrap* rate
    // is half the pulse's -- while its step rate is four times.
    let ratio = f64::from(pulse_wraps) / f64::from(tri_wraps);
    assert!(
        (1.8..=2.2).contains(&ratio),
        "pulse wrapped {pulse_wraps} times to the triangle's {tri_wraps}"
    );
}

/// A channel disabled through `$4015` is silent, and enabling it is not
/// enough on its own -- the length counter has to be loaded too. Getting
/// this backwards makes every note play for ever.
#[test]
fn the_status_register_gates_each_channel() {
    let mut chip = NesApu::new();
    chip.reset(NTSC, false);
    // Explicitly disabled *before* anything sounds, so the length counter
    // cannot load and nothing has rung to decay from. (Reset leaves the
    // channels enabled -- see `reset` for why -- so this has to be asked
    // for rather than assumed.)
    chip.write(0, 0x15, 0x00);
    chip.write(0, 0x00, 0xBF);
    chip.write(0, 0x02, 0x40);
    chip.write(0, 0x03, 0x08);
    assert_eq!(energy(&render(&mut chip, 2000)), 0);

    chip.write(0, 0x15, 0x01);
    chip.write(0, 0x03, 0x08); // reload the length now it is enabled
    assert!(energy(&render(&mut chip, 2000)) > 0);

    // And disabling clears the counter outright rather than pausing it.
    chip.write(0, 0x15, 0x00);
    assert!(falls_silent(&render(&mut chip, 4000)));
}

/// A period below 8, or a sweep target past eleven bits, mutes a pulse
/// while its sequencer keeps running. Both are documented and both are easy
/// to leave out, which shows up as a squeal on notes that should be silent.
#[test]
fn a_pulse_mutes_on_a_short_period_or_an_overflowing_sweep() {
    let mut chip = NesApu::new();
    chip.reset(NTSC, false);
    chip.write(0, 0x15, 0x01);
    chip.write(0, 0x00, 0xBF);
    chip.write(0, 0x02, 0x07); // period 7, below the floor
    chip.write(0, 0x03, 0x08);
    assert!(
        falls_silent(&render(&mut chip, 4000)),
        "period 7 must be muted"
    );

    chip.write(0, 0x02, 0x08); // period 8, the first audible one
    chip.write(0, 0x03, 0x08);
    assert!(energy(&render(&mut chip, 2000)) > 0);

    // An upward sweep whose target overflows mutes immediately.
    chip.write(0, 0x02, 0x00);
    chip.write(0, 0x03, 0x0F); // timer 0x700
    chip.write(0, 0x01, 0x81); // sweep enabled, shift 1, adding
    assert!(
        falls_silent(&render(&mut chip, 4000)),
        "a sweep target past 0x7FF must mute"
    );
}

/// The noise channel's two modes come from where the shift register is
/// tapped, and the short one repeats far sooner. Counting the period is how
/// to tell them apart without an ear.
#[test]
fn the_noise_shift_register_has_two_periods() {
    fn period(short: bool) -> usize {
        let mut noise = Noise {
            short_mode: short,
            period: 0,
            counter: 0,
            ..Noise::default()
        };
        let start = noise.shift;
        for step in 1..100_000 {
            noise.clock();
            if noise.shift == start {
                return step;
            }
        }
        0
    }
    // The documented lengths: 32767 for the long sequence, 93 for the short.
    assert_eq!(period(false), 32_767);
    assert_eq!(period(true), 93);
}

/// Writing `$4011` moves the DMC's output level directly, with no sample
/// involved. Games play whole tunes this way, so a core that only responds
/// to DPCM sequences renders them silent.
#[test]
fn the_dmc_level_is_audible_without_a_sample() {
    let mut chip = NesApu::new();
    chip.reset(NTSC, false);
    let quiet = energy(&render(&mut chip, 1000));

    // Step the level about, which is what such a driver does.
    let mut moved = 0i64;
    for step in 0..40 {
        chip.write(0, 0x11, if step % 2 == 0 { 0x00 } else { 0x7F });
        moved += energy(&render(&mut chip, 50));
    }
    assert!(
        moved > quiet * 10,
        "writing the DMC level made no sound: {moved} vs {quiet}"
    );
}

/// DPCM bytes arrive as memory rather than as register writes, and the
/// channel addresses them from `$C000`. An off-by-one in that window plays
/// the wrong sample, or noise.
#[test]
fn the_dmc_plays_bytes_from_the_ram_block() {
    let mut chip = NesApu::new();
    chip.reset(NTSC, false);
    // Alternating bits: the steepest waveform the DMC can produce.
    chip.write_ram(0, &[0b1010_1010; 256]);

    chip.write(0, 0x10, 0x0F); // fastest rate, no loop
    chip.write(0, 0x12, 0x00); // sample at $C000
    chip.write(0, 0x13, 0x0F); // a few hundred bytes
    chip.write(0, 0x11, 0x40); // start mid-range so it can move both ways
    chip.write(0, 0x15, 0x10); // enable the DMC

    let out = render(&mut chip, 4000);
    assert!(
        energy(&out) > 0,
        "the DMC played nothing from a full RAM block"
    );
}

/// The engine resets a core when it loads a file, and the sample memory
/// arrives *before* the stream starts. A reset that dropped it would play
/// every DPCM sample as silence -- and only on real files, never in a test
/// that writes its RAM afterwards.
#[test]
fn a_reset_keeps_the_sample_memory_it_was_given() {
    let mut chip = NesApu::new();
    chip.write_ram(0, &[0xFF; 64]);
    chip.reset(NTSC, false);
    assert_eq!(
        chip.dmc.memory.len(),
        64,
        "the reset threw the samples away"
    );
    assert!(chip.dmc.memory.iter().all(|&byte| byte == 0xFF));
}

/// The rate the engine resamples from.
#[test]
fn the_native_rate_divides_the_cpu_clock() {
    let mut chip = NesApu::new();
    chip.reset(NTSC, false);
    assert_eq!(chip.native_rate(), NTSC / CYCLES_PER_SAMPLE);
    chip.reset(0, false);
    assert!(
        chip.native_rate() >= 1,
        "a zero clock must not divide to zero"
    );
}

/// Chunking must not change the audio.
#[test]
fn nes_apu_the_output_does_not_depend_on_how_the_caller_chunks_it() {
    fn set_up(chip: &mut NesApu) {
        chip.reset(NTSC, false);
        chip.write(0, 0x15, 0x0F);
        chip.write(0, 0x00, 0xBF);
        chip.write(0, 0x02, 0x40);
        chip.write(0, 0x03, 0x08);
        chip.write(0, 0x0C, 0x3F);
        chip.write(0, 0x0E, 0x04);
        chip.write(0, 0x0F, 0x08);
    }
    let mut whole = NesApu::new();
    set_up(&mut whole);
    let mut one_go = vec![0i32; 1024 * 2];
    whole.render(&mut one_go);

    let mut chunked = NesApu::new();
    set_up(&mut chunked);
    let mut piecemeal = vec![0i32; 1024 * 2];
    for chunk in piecemeal.chunks_mut(64 * 2) {
        chunked.render(chunk);
    }
    assert_eq!(one_go, piecemeal);
}

/// The output is unipolar before the DC blocker, so without one every note
/// would start with a step. Silence must settle back to zero.
#[test]
fn the_dc_blocker_returns_silence_to_zero() {
    let mut chip = NesApu::new();
    chip.reset(NTSC, false);
    chip.write(0, 0x15, 0x01);
    chip.write(0, 0x00, 0xBF);
    chip.write(0, 0x02, 0x40);
    chip.write(0, 0x03, 0x08);
    let _ = render(&mut chip, 2000);

    chip.write(0, 0x15, 0x00); // everything off
    let tail = render(&mut chip, 20_000);
    let settled = &tail[tail.len() - 100..];
    let loudest = settled.iter().map(|&s| s.abs()).max().unwrap_or(0);
    assert!(
        loudest < PEAK / 500,
        "silence settled only to {loudest}, which is a DC offset a listener              would hear as a click when the next note starts"
    );
}

/// A loud patch should use the range without leaning on the mixer's clamp.
#[test]
fn nes_apu_a_full_chip_uses_the_range_without_clipping_it() {
    let mut chip = NesApu::new();
    chip.reset(NTSC, false);
    chip.write(0, 0x15, 0x0F);
    for base in [0x00u16, 0x04] {
        chip.write(0, base, 0xBF);
        chip.write(0, base + 2, 0x40);
        chip.write(0, base + 3, 0x08);
    }
    chip.write(0, 0x08, 0xFF);
    chip.write(0, 0x0A, 0x20);
    chip.write(0, 0x0B, 0x08);
    chip.write(0, 0x0C, 0x3F);
    chip.write(0, 0x0E, 0x02);
    chip.write(0, 0x0F, 0x08);

    let out = render(&mut chip, 8000);
    let loudest = out.iter().map(|&s| s.abs()).max().unwrap_or(0);
    assert!(
        loudest > PEAK / 8,
        "a full chip peaked at {loudest}, far below its own scale"
    );
    assert!(
        loudest < i32::from(i16::MAX),
        "a full chip peaked at {loudest}, which the mixer would clamp"
    );
}
