use dro_synth::chip::ChipCore;
use dro_synth::cores::k054539::{volume_gain, K054539};


/// The usual crystal.
const CLOCK: u32 = 18_432_000;

fn render(chip: &mut K054539, frames: usize) -> Vec<(i32, i32)> {
    let mut out = vec![0i32; frames * 2];
    chip.render(&mut out);
    out.chunks_exact(2).map(|f| (f[0], f[1])).collect()
}

fn energy(samples: &[(i32, i32)]) -> i64 {
    samples
        .iter()
        .map(|&(l, r)| i64::from(l.abs()) + i64::from(r.abs()))
        .sum()
}

/// A ROM whose sample 0x1000 alternates extremes and ends in a marker,
/// with a marker at the loop target too.
fn rom() -> Vec<u8> {
    let mut rom = vec![0u8; 0x2000];
    for (index, byte) in rom[0x1000..0x1100].iter_mut().enumerate() {
        *byte = if index % 2 == 0 { 0x7F } else { 0x81 };
    }
    rom[0x1100] = 0x80; // end marker
    rom[0x0FFF] = 0x80; // and one at the loop target
    rom
}

fn key_on(chip: &mut K054539) {
    chip.write(2, 0x00, 0x00); // ch0 flags: 8-bit, forward
    chip.write(0, 0x00, 0x00); // pitch 0x10000: one byte a frame
    chip.write(0, 0x01, 0x00);
    chip.write(0, 0x02, 0x01);
    chip.write(0, 0x03, 0x00); // no attenuation
    chip.write(0, 0x05, 0x08); // centre
    chip.write(0, 0x0C, 0x00); // start 0x1000
    chip.write(0, 0x0D, 0x10);
    chip.write(0, 0x0E, 0x00);
    chip.write(0, 0x08, 0xFF); // loop target 0x0FFF (a marker)
    chip.write(0, 0x09, 0x0F);
    chip.write(0, 0x0A, 0x00);
    chip.write(2, 0x14, 0x01); // key on channel 0
}

#[test]
fn k054539_a_fresh_chip_is_silent_and_a_keyed_one_is_not() {
    let mut chip = K054539::new();
    chip.reset(CLOCK, false);
    let sample_rom = rom();
    chip.load_rom(0x8C, sample_rom.len() as u32, 0, &sample_rom);
    assert_eq!(energy(&render(&mut chip, 200)), 0);
    key_on(&mut chip);
    assert!(energy(&render(&mut chip, 200)) > 0);
}

/// The end marker stops a one-shot whose loop target is marked too, and
/// key-off silences a playing channel.
#[test]
fn the_marker_and_the_key_off_both_stop() {
    let mut chip = K054539::new();
    chip.reset(CLOCK, false);
    let sample_rom = rom();
    chip.load_rom(0x8C, sample_rom.len() as u32, 0, &sample_rom);
    key_on(&mut chip);
    render(&mut chip, 0x110); // run past the marker
    assert_eq!(energy(&render(&mut chip, 100)), 0, "the marker must stop");

    key_on(&mut chip);
    assert!(energy(&render(&mut chip, 50)) > 0);
    chip.write(2, 0x15, 0x01);
    assert_eq!(energy(&render(&mut chip, 100)), 0, "key-off must stop");
}

/// 16-bit samples read little-endian pairs; the type comes from the
/// flag register.
#[test]
fn sixteen_bit_samples_play() {
    let mut chip = K054539::new();
    chip.reset(CLOCK, false);
    let mut sample_rom = vec![0u8; 0x2000];
    for pair in sample_rom[0x1000..0x1100].chunks_exact_mut(2) {
        pair[0] = 0xFF;
        pair[1] = 0x3F; // +0x3FFF
    }
    chip.load_rom(0x8C, sample_rom.len() as u32, 0, &sample_rom);
    chip.write(2, 0x00, 0x04); // 16-bit
    key_on(&mut chip);
    let peak = render(&mut chip, 50)
        .iter()
        .map(|&(l, _)| l.abs())
        .max()
        .unwrap_or(0);
    assert!(peak > 0x800, "16-bit amplitude must come through: {peak}");
}

/// The volume curve against its closed form: -36 dB per 0x40 steps.
#[test]
fn the_volume_curve_is_the_documented_attenuation() {
    for step in [0u8, 1, 0x20, 0x40, 0x80, 0xFF] {
        let expected = 65536.0 * 10f64.powf(-36.0 * f64::from(step) / 64.0 / 20.0);
        let got = f64::from(volume_gain(step));
        assert!(
            (got - expected).abs() <= expected * 0.02 + 2.0,
            "step {step}: {got} vs {expected}"
        );
    }
}
