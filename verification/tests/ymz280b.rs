use dro_synth::chip::ChipCore;
use dro_synth::cores::ymz280b::{Voice, Ymz280b};


/// The usual crystal: 44.1 kHz exactly.
const CLOCK: u32 = 16_934_400;

fn render(chip: &mut Ymz280b, frames: usize) -> Vec<(i32, i32)> {
    let mut out = vec![0i32; frames * 2];
    chip.render(&mut out);
    out.chunks_exact(2).map(|f| (f[0], f[1])).collect()
}

fn energy(samples: &[(i32, i32)]) -> i64 {
    samples
        .iter()
        .map(|&(l, r)| i64::from(l.abs()) + i64::from(r.abs()))
        .sum()
}

fn rom() -> Vec<u8> {
    let mut rom = vec![0u8; 0x2000];
    for (index, byte) in rom[0x1000..0x1100].iter_mut().enumerate() {
        *byte = if index % 2 == 0 { 0x77 } else { 0xFF };
    }
    rom
}

/// Voice 0 keyed onto the ADPCM run at 0x1000.
fn key_on(chip: &mut Ymz280b) {
    chip.write(0, 0x20, 0x00); // start 0x001000
    chip.write(0, 0x40, 0x10);
    chip.write(0, 0x60, 0x00);
    chip.write(0, 0x23, 0x00); // end 0x001100
    chip.write(0, 0x43, 0x11);
    chip.write(0, 0x63, 0x00);
    chip.write(0, 0x02, 0xFF); // level
    chip.write(0, 0x03, 0x08); // centre
    chip.write(0, 0x00, 0xFF); // pitch: unity
    chip.write(0, 0x01, 0x80); // key on, ADPCM, no loop
}

#[test]
fn ymz280b_a_fresh_chip_is_silent_and_a_keyed_one_is_not() {
    let mut chip = Ymz280b::new();
    chip.reset(CLOCK, false);
    assert_eq!(chip.native_rate(), 44_100);
    let sample_rom = rom();
    chip.load_rom(0x86, sample_rom.len() as u32, 0, &sample_rom);
    assert_eq!(energy(&render(&mut chip, 200)), 0);
    key_on(&mut chip);
    assert!(energy(&render(&mut chip, 200)) > 0);
}

/// A one-shot stops at its end; the loop bit re-runs the loop window.
#[test]
fn ymz280b_the_end_stops_and_the_loop_sustains() {
    let mut chip = Ymz280b::new();
    chip.reset(CLOCK, false);
    let sample_rom = rom();
    chip.load_rom(0x86, sample_rom.len() as u32, 0, &sample_rom);
    key_on(&mut chip);
    render(&mut chip, 0x300);
    assert_eq!(energy(&render(&mut chip, 200)), 0, "one-shot must stop");

    chip.write(0, 0x21, 0x00); // loop window = the sample itself
    chip.write(0, 0x41, 0x10);
    chip.write(0, 0x61, 0x00);
    chip.write(0, 0x22, 0x00);
    chip.write(0, 0x42, 0x11);
    chip.write(0, 0x62, 0x00);
    chip.write(0, 0x01, 0x00); // key off first
    chip.write(0, 0x01, 0x90); // key on, looping
    render(&mut chip, 0x400);
    assert!(energy(&render(&mut chip, 200)) > 0, "the loop must sustain");
}

/// **The accumulator clamps at sixteen bits** -- the property that
/// separates this decoder from the OKI chips' 12-bit clamp and the OPN
/// family's 12-bit wrap.
#[test]
fn the_adpcm_accumulator_clamps_at_sixteen_bits() {
    let mut voice = Voice::default();
    for _ in 0..2000 {
        voice.decode_adpcm(0x7);
    }
    assert_eq!(voice.signal, 32767, "it must clamp, not wrap");
    for _ in 0..4000 {
        voice.decode_adpcm(0xF);
    }
    assert_eq!(voice.signal, -32768);
}
