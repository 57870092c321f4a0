use dro_synth::chip::ChipCore;
use dro_synth::cores::vsu::Vsu;


/// The Virtual Boy's 5 MHz sound clock.
const CLOCK: u32 = 5_000_000;

fn render(chip: &mut Vsu, frames: usize) -> Vec<(i32, i32)> {
    let mut out = vec![0i32; frames * 2];
    chip.render(&mut out);
    out.chunks_exact(2).map(|f| (f[0], f[1])).collect()
}

fn energy(samples: &[(i32, i32)]) -> i64 {
    samples
        .iter()
        .map(|&(l, r)| i64::from(l.abs()) + i64::from(r.abs()))
        .sum()
}

fn key_on(chip: &mut Vsu) {
    for at in 0..32u16 {
        chip.write(0, at, if at < 16 { 0x3F } else { 0x00 }); // a square
    }
    chip.write(0, 0x0102, 0x00); // frequency
    chip.write(0, 0x0103, 0x07);
    chip.write(0, 0x0101, 0xFF); // both sides full
    chip.write(0, 0x0104, 0xF0); // envelope level 15, static
    chip.write(0, 0x0106, 0x00); // wavetable 0
    chip.write(0, 0x0100, 0x80); // enable
}

#[test]
fn vsu_a_fresh_chip_is_silent_and_an_enabled_one_is_not() {
    let mut chip = Vsu::new();
    chip.reset(CLOCK, false);
    assert_eq!(energy(&render(&mut chip, 200)), 0);
    key_on(&mut chip);
    assert!(energy(&render(&mut chip, 500)) > 0);
}

/// A decaying envelope fades the channel to silence and stays there
/// without the repeat bit.
#[test]
fn the_envelope_decays_to_silence() {
    let mut chip = Vsu::new();
    chip.reset(CLOCK, false);
    key_on(&mut chip);
    chip.write(0, 0x0104, 0xF0); // level 15, decay, fastest interval
    chip.write(0, 0x0105, 0x01); // envelope on
    let early = energy(&render(&mut chip, 500));
    let second = chip.rate as usize;
    render(&mut chip, second); // a second of decay
    let late = energy(&render(&mut chip, 500));
    assert!(early > 0);
    assert_eq!(late, 0, "a decayed envelope must be silent");
}

/// The noise channel rattles both polarities.
#[test]
fn the_noise_channel_rattles() {
    let mut chip = Vsu::new();
    chip.reset(CLOCK, false);
    chip.write(0, 0x0151, 0xFF);
    chip.write(0, 0x0154, 0xF0);
    chip.write(0, 0x0150, 0x80);
    let samples = render(&mut chip, 500);
    assert!(samples.iter().any(|&(l, _)| l > 0));
    assert!(samples.iter().any(|&(l, _)| l < 0));
}
