use dro_synth::chip::{ChipCore, ChipSettings};
use dro_synth::cores::c352::{mulaw, C352, FLG_KEYON, FLG_KEYOFF, FLG_LOOP, FLG_NOISE};


/// A System 11 C352 clock with the usual divider field of 72.
const CLOCK: u32 = 24_192_000;

fn configured() -> C352 {
    let mut chip = C352::new();
    chip.reset(CLOCK, false);
    chip.configure(&ChipSettings {
        c352_clock_divider: 72,
        ..Default::default()
    });
    chip
}

fn render(chip: &mut C352, frames: usize) -> Vec<(i32, i32)> {
    let mut out = vec![0i32; frames * 2];
    chip.render(&mut out);
    out.chunks_exact(2).map(|f| (f[0], f[1])).collect()
}

fn energy(samples: &[(i32, i32)]) -> i64 {
    samples
        .iter()
        .map(|&(l, r)| i64::from(l.abs()) + i64::from(r.abs()))
        .sum()
}

fn rom() -> Vec<u8> {
    let mut rom = vec![0u8; 0x2000];
    for (index, byte) in rom[0x1000..0x1100].iter_mut().enumerate() {
        *byte = if index % 2 == 0 { 0x7F } else { 0x81 };
    }
    rom
}

fn key_on(chip: &mut C352) {
    chip.write(0, 0x00, 0xFFFF); // front volumes full
    chip.write(0, 0x02, 0xFFFF); // frequency just under 1:1
    chip.write(0, 0x04, 0x0000); // bank 0
    chip.write(0, 0x05, 0x1000); // start
    chip.write(0, 0x06, 0x1100); // end
    chip.write(0, 0x03, FLG_KEYON);
}

/// The divider field is the rate: 24.192 MHz over 72*4.
#[test]
fn the_header_divider_sets_the_rate() {
    let chip = configured();
    assert_eq!(chip.native_rate(), CLOCK / (72 * 4));
}

#[test]
fn c352_a_fresh_chip_is_silent_and_a_keyed_one_is_not() {
    let mut chip = configured();
    let sample_rom = rom();
    chip.load_rom(0x92, sample_rom.len() as u32, 0, &sample_rom);
    assert_eq!(energy(&render(&mut chip, 200)), 0);
    key_on(&mut chip);
    assert!(energy(&render(&mut chip, 200)) > 0);
}

/// A one-shot stops at its end; the loop flag sustains through it; the
/// key-off flag stops that.
#[test]
fn end_loop_and_keyoff_behave() {
    let mut chip = configured();
    let sample_rom = rom();
    chip.load_rom(0x92, sample_rom.len() as u32, 0, &sample_rom);
    key_on(&mut chip);
    render(&mut chip, 0x180);
    assert_eq!(energy(&render(&mut chip, 200)), 0, "one-shot must stop");

    chip.write(0, 0x07, 0x1000); // loop to the start
    chip.write(0, 0x03, FLG_KEYON | FLG_LOOP);
    render(&mut chip, 0x400);
    assert!(energy(&render(&mut chip, 200)) > 0, "loop must sustain");

    chip.write(0, 0x03, FLG_KEYOFF);
    assert_eq!(energy(&render(&mut chip, 200)), 0, "key-off must stop");
}

/// The mu-law curve: symmetric, monotonic, gentler near zero than at
/// the top -- regenerated from the same piecewise description.
#[test]
fn the_mulaw_curve_is_symmetric_and_progressive() {
    assert_eq!(mulaw(0x00), 0);
    for code in 1..0x80u8 {
        assert!(mulaw(code) > mulaw(code - 1), "monotonic at {code}");
        assert_eq!(mulaw(code | 0x80), -mulaw(code), "symmetric at {code}");
    }
    let low_step = mulaw(1) - mulaw(0);
    let high_step = mulaw(0x7F) - mulaw(0x7E);
    assert!(high_step / low_step >= 8, "the top must be steeper");
}

/// A noise voice sounds without any ROM at all, and both polarities
/// appear.
#[test]
fn the_noise_flag_plays_the_generator() {
    let mut chip = configured();
    chip.write(0, 0x00, 0xFFFF);
    chip.write(0, 0x02, 0xFFFF);
    chip.write(0, 0x03, FLG_KEYON | FLG_NOISE);
    let samples = render(&mut chip, 500);
    assert!(samples.iter().any(|&(l, _)| l > 0));
    assert!(samples.iter().any(|&(l, _)| l < 0));
}
