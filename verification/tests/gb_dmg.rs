use dro_synth::chip::ChipCore;
use dro_synth::cores::gb_dmg::{GbDmg, CYCLES_PER_SAMPLE, PEAK};


/// The Game Boy's master clock, which is what a VGM header carries.
const DMG: u32 = 4_194_304;

fn render(chip: &mut GbDmg, frames: usize) -> Vec<[i32; 2]> {
    let mut out = vec![0i32; frames * 2];
    chip.render(&mut out);
    out.chunks_exact(2).map(|f| [f[0], f[1]]).collect()
}

fn energy(frames: &[[i32; 2]]) -> i64 {
    frames
        .iter()
        .map(|f| i64::from(f[0].abs()) + i64::from(f[1].abs()))
        .sum()
}

/// Powers the chip up and opens both sides at full volume, as a driver's
/// first few writes do.
fn power_on(chip: &mut GbDmg) {
    chip.write(0, 0x16, 0x80); // NR52: on
    chip.write(0, 0x14, 0x77); // NR50: both sides at 7
    chip.write(0, 0x15, 0xFF); // NR51: everything to both sides
}

/// A plain note on channel 2 -- no sweep to complicate it.
fn key_on_square2(chip: &mut GbDmg) {
    chip.write(0, 0x06, 0x80); // 50% duty, length 0
    chip.write(0, 0x07, 0xF0); // volume 15, no envelope decay
    chip.write(0, 0x08, 0x00); // frequency low
    chip.write(0, 0x09, 0x87); // frequency high 7, trigger
}

#[test]
fn a_fresh_chip_is_silent_and_a_triggered_note_is_not() {
    let mut chip = GbDmg::new();
    chip.reset(DMG, false);
    assert_eq!(energy(&render(&mut chip, 2000)), 0, "nothing triggered yet");

    power_on(&mut chip);
    key_on_square2(&mut chip);
    assert!(energy(&render(&mut chip, 2000)) > 0);
}

/// The rate the engine resamples from, exact for the standard clock.
#[test]
fn the_native_rate_divides_the_master_clock() {
    let mut chip = GbDmg::new();
    chip.reset(DMG, false);
    assert_eq!(chip.native_rate(), 65_536);
    chip.reset(0, false);
    assert!(
        chip.native_rate() >= 1,
        "a zero clock must not divide to zero"
    );
}

/// **The chip's distinguishing feature.** Every channel routes to either
/// side independently, so a rip has a stereo image no other chip here
/// produces. Getting NR51's two nibbles the wrong way round swaps it.
#[test]
fn each_channel_routes_to_either_side_on_its_own() {
    let mut chip = GbDmg::new();
    chip.reset(DMG, false);
    power_on(&mut chip);
    // NR51 bit 1 is channel 2 on the *right*; bit 5 is channel 2 on the
    // left. Ask for the right only.
    chip.write(0, 0x15, 0x02);
    key_on_square2(&mut chip);

    let frames = render(&mut chip, 4000);
    let left: i64 = frames.iter().map(|f| i64::from(f[0].abs())).sum();
    let right: i64 = frames.iter().map(|f| i64::from(f[1].abs())).sum();
    assert_eq!(left, 0, "channel 2 was not asked for on the left");
    assert!(right > 0, "channel 2 was asked for on the right");
}

/// A pulse's pitch is `131072 / (2048 - frequency)` Hz. Counted in sequence
/// wraps rather than asserted from the formula.
#[test]
fn gb_dmg_a_pulse_sounds_at_the_documented_frequency() {
    let mut chip = GbDmg::new();
    chip.reset(DMG, false);
    power_on(&mut chip);
    key_on_square2(&mut chip);
    let frequency = chip.square2.frequency;

    // One second of master clocks, stepped as the render loop steps them.
    let mut wraps = 0u32;
    let mut last = chip.square2.step;
    for _ in 0..(DMG / CYCLES_PER_SAMPLE) {
        chip.advance(CYCLES_PER_SAMPLE);
        if chip.square2.step < last {
            wraps += 1;
        }
        last = chip.square2.step;
    }
    let expected = 131_072 / (2048 - u32::from(frequency));
    let drift = wraps.abs_diff(expected);
    assert!(
        drift * 100 <= expected,
        "counted {wraps} cycles a second, expected about {expected}"
    );
}

/// The wave channel's volume is a *shift*: full, half, quarter or nothing.
/// A multiply would give a smooth fade the chip cannot actually produce.
#[test]
fn the_wave_volume_is_a_shift_not_a_multiply() {
    fn peak_at(shift: u8) -> i32 {
        let mut chip = GbDmg::new();
        chip.reset(DMG, false);
        power_on(&mut chip);
        // A ramp across all 32 samples, so the peak is the top nibble.
        for byte in 0..16u8 {
            chip.write(0, u16::from(0x20 + byte), u16::from(byte * 0x11));
        }
        chip.write(0, 0x0A, 0x80); // DAC on
        chip.write(0, 0x0C, u16::from(shift) << 5);
        chip.write(0, 0x0D, 0x00);
        chip.write(0, 0x0E, 0x87); // trigger
        render(&mut chip, 4000)
            .iter()
            .map(|f| f[0].abs())
            .max()
            .unwrap_or(0)
    }

    let full = peak_at(1);
    let half = peak_at(2);
    let quarter = peak_at(3);
    assert_eq!(peak_at(0), 0, "shift 0 is mute, not full volume");
    assert!(full > 0);
    // Halving, within the rounding the output scaling introduces.
    assert!(
        (half * 2).abs_diff(full) <= full as u32 / 8,
        "half came to {half} against a full {full}"
    );
    assert!(
        (quarter * 4).abs_diff(full) <= full as u32 / 4,
        "quarter came to {quarter} against a full {full}"
    );
}

/// Zero initial volume pointing downward switches a channel's DAC off,
/// which disables it rather than merely making it quiet. A core that treats
/// it as "volume 0" leaves the channel running and audible the moment the
/// envelope moves.
#[test]
fn a_dac_switched_off_disables_its_channel() {
    let mut chip = GbDmg::new();
    chip.reset(DMG, false);
    power_on(&mut chip);
    key_on_square2(&mut chip);
    assert!(energy(&render(&mut chip, 1000)) > 0);

    chip.write(0, 0x07, 0x00); // volume 0, decreasing: DAC off
    assert_eq!(energy(&render(&mut chip, 2000)), 0);
    assert!(
        !chip.square2.on,
        "the channel must be disabled, not just quiet"
    );
}

/// A length counter expiring stops its channel. The pulses count to 64 and
/// the wave to 256, so the same written value means different durations --
/// which is the sort of thing that sounds like a tempo bug.
#[test]
fn a_length_counter_stops_its_channel() {
    let mut chip = GbDmg::new();
    chip.reset(DMG, false);
    power_on(&mut chip);
    chip.write(0, 0x06, 0xBF); // duty 50%, length 63 -> one step left
    chip.write(0, 0x07, 0xF0);
    chip.write(0, 0x08, 0x00);
    chip.write(0, 0x09, 0xC7); // length enabled, trigger

    // The sequencer runs at 512 Hz and lengths tick on half of those, so
    // one step is about 4 ms.
    let early = energy(&render(&mut chip, 100));
    assert!(early > 0, "the note must start");
    let _ = render(&mut chip, 2000);
    assert!(!chip.square2.on, "the length counter did not stop it");
    assert_eq!(energy(&render(&mut chip, 1000)), 0);
}

/// A sweep that runs the frequency past eleven bits disables the channel,
/// which is how the classic Game Boy "shoot" effect ends.
#[test]
fn an_overflowing_sweep_disables_channel_one() {
    let mut chip = GbDmg::new();
    chip.reset(DMG, false);
    power_on(&mut chip);
    chip.write(0, 0x00, 0x11); // sweep: period 1, upward, shift 1
    chip.write(0, 0x01, 0x80);
    chip.write(0, 0x02, 0xF0);
    chip.write(0, 0x03, 0x00);
    chip.write(0, 0x04, 0x84); // frequency 0x400: the first step fits
    assert!(chip.square1.on, "0x400 + 0x200 is still inside eleven bits");

    let _ = render(&mut chip, 20_000);
    assert!(
        !chip.square1.on,
        "an upward sweep from 0x400 must overflow within a few steps"
    );
}

/// A trigger whose *first* sweep calculation already overflows disables the
/// channel before it makes a sound. Documented, easy to leave out, and the
/// difference between a silent effect and a stuck note.
#[test]
fn a_trigger_that_already_overflows_never_starts() {
    let mut chip = GbDmg::new();
    chip.reset(DMG, false);
    power_on(&mut chip);
    chip.write(0, 0x00, 0x11); // sweep: period 1, upward, shift 1
    chip.write(0, 0x01, 0x80);
    chip.write(0, 0x02, 0xF0);
    chip.write(0, 0x03, 0x00);
    chip.write(0, 0x04, 0x87); // 0x700 + 0x380 is past 0x7FF at the trigger
    assert!(!chip.square1.on, "it must not start at all");
    assert_eq!(energy(&render(&mut chip, 2000)), 0);
}

/// Clearing NR52's power bit resets the registers, and wave RAM survives
/// it. A driver loads a waveform and *then* powers the chip up, so losing
/// the RAM makes channel 3 play a flat line.
#[test]
fn powering_off_clears_the_registers_but_keeps_wave_ram() {
    let mut chip = GbDmg::new();
    chip.reset(DMG, false);
    power_on(&mut chip);
    for byte in 0..16u8 {
        chip.write(0, u16::from(0x20 + byte), 0xA5);
    }
    key_on_square2(&mut chip);
    assert!(energy(&render(&mut chip, 500)) > 0);

    chip.write(0, 0x16, 0x00); // power off
    assert_eq!(energy(&render(&mut chip, 2000)), 0);
    assert!(
        chip.wave.ram.iter().all(|&byte| byte == 0xA5),
        "RAM was lost"
    );

    // And a write while powered down is ignored, except to wave RAM.
    chip.write(0, 0x07, 0xF0);
    assert_eq!(chip.square2.envelope.initial, 0, "a write got through");
}

/// Chunking must not change the audio.
#[test]
fn gb_dmg_the_output_does_not_depend_on_how_the_caller_chunks_it() {
    fn set_up(chip: &mut GbDmg) {
        chip.reset(DMG, false);
        power_on(chip);
        key_on_square2(chip);
        chip.write(0, 0x11, 0xF0); // noise volume
        chip.write(0, 0x12, 0x34);
        chip.write(0, 0x13, 0x80); // trigger
    }
    let mut whole = GbDmg::new();
    set_up(&mut whole);
    let mut one_go = vec![0i32; 1024 * 2];
    whole.render(&mut one_go);

    let mut chunked = GbDmg::new();
    set_up(&mut chunked);
    let mut piecemeal = vec![0i32; 1024 * 2];
    for chunk in piecemeal.chunks_mut(64 * 2) {
        chunked.render(chunk);
    }
    assert_eq!(one_go, piecemeal);
}

/// Everything at once should use the range without leaning on the clamp.
#[test]
fn gb_dmg_a_full_chip_uses_the_range_without_clipping_it() {
    let mut chip = GbDmg::new();
    chip.reset(DMG, false);
    power_on(&mut chip);
    key_on_square2(&mut chip);
    chip.write(0, 0x01, 0x80);
    chip.write(0, 0x02, 0xF0);
    chip.write(0, 0x03, 0x40);
    chip.write(0, 0x04, 0x87);
    for byte in 0..16u8 {
        chip.write(0, u16::from(0x20 + byte), 0xF0);
    }
    chip.write(0, 0x0A, 0x80);
    chip.write(0, 0x0C, 0x20);
    chip.write(0, 0x0D, 0x00);
    chip.write(0, 0x0E, 0x87);
    chip.write(0, 0x11, 0xF0);
    chip.write(0, 0x12, 0x34);
    chip.write(0, 0x13, 0x80);

    let frames = render(&mut chip, 8000);
    let loudest = frames
        .iter()
        .flat_map(|f| [f[0].abs(), f[1].abs()])
        .max()
        .unwrap_or(0);
    assert!(
        loudest > PEAK / 4,
        "a full chip peaked at {loudest}, far below its own scale"
    );
    assert!(
        loudest <= PEAK,
        "a full chip peaked at {loudest}, past the scale it declares"
    );
}
