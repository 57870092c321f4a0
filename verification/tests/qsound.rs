use dro_synth::chip::ChipCore;
use dro_synth::cores::qsound::QSound;


/// The CPS2 QSound clock.
const CLOCK: u32 = 4_000_000;

fn render(chip: &mut QSound, frames: usize) -> Vec<(i32, i32)> {
    let mut out = vec![0i32; frames * 2];
    chip.render(&mut out);
    out.chunks_exact(2).map(|f| (f[0], f[1])).collect()
}

fn energy(samples: &[(i32, i32)]) -> i64 {
    samples
        .iter()
        .map(|&(l, r)| i64::from(l.abs()) + i64::from(r.abs()))
        .sum()
}

fn rom() -> Vec<u8> {
    let mut rom = vec![0u8; 0x2000];
    for (index, byte) in rom[0x1000..0x1100].iter_mut().enumerate() {
        *byte = if index % 2 == 0 { 0x7F } else { 0x81 };
    }
    rom
}

fn key_on(chip: &mut QSound) {
    chip.write(0, 0x00, 0x0000); // bank 0
    chip.write(0, 0x05, 0x1100); // end
    chip.write(0, 0x04, 0x0000); // one-shot
    chip.write(0, 0x06, 0x1FFF); // volume
    chip.write(0, 0x80, 0x0120); // centre pan
    chip.write(0, 0x01, 0x1000); // start (resets position)
    chip.write(0, 0x02, 0x1000); // pitch: unity -- and the key
}

#[test]
fn a_fresh_chip_is_silent_and_a_pitched_one_is_not() {
    let mut chip = QSound::new();
    chip.reset(CLOCK, false);
    let sample_rom = rom();
    chip.load_rom(0x8F, sample_rom.len() as u32, 0, &sample_rom);
    assert_eq!(energy(&render(&mut chip, 200)), 0);
    key_on(&mut chip);
    assert!(energy(&render(&mut chip, 200)) > 0);
}

/// A one-shot silences itself at its end register; a loop length steps
/// back and keeps sounding.
#[test]
fn qsound_the_end_stops_and_the_loop_sustains() {
    let mut chip = QSound::new();
    chip.reset(CLOCK, false);
    let sample_rom = rom();
    chip.load_rom(0x8F, sample_rom.len() as u32, 0, &sample_rom);
    key_on(&mut chip);
    render(&mut chip, 0x180);
    assert_eq!(energy(&render(&mut chip, 200)), 0, "one-shot must stop");

    key_on(&mut chip);
    chip.write(0, 0x04, 0x0100); // loop the whole sample
    render(&mut chip, 0x400);
    assert!(energy(&render(&mut chip, 200)) > 0, "loop must sustain");
}

/// The pan positions steer the stereo pair: full left leaves the right
/// channel silent, and the reverse.
#[test]
fn the_pan_table_steers() {
    let mut chip = QSound::new();
    chip.reset(CLOCK, false);
    let sample_rom = rom();
    chip.load_rom(0x8F, sample_rom.len() as u32, 0, &sample_rom);
    key_on(&mut chip);
    chip.write(0, 0x80, 0x0110); // full left
    let samples = render(&mut chip, 100);
    assert!(samples.iter().any(|&(l, _)| l != 0));
    assert!(samples.iter().all(|&(_, r)| r == 0));

    chip.write(0, 0x80, 0x0130); // full right
    let samples = render(&mut chip, 100);
    assert!(samples.iter().all(|&(l, _)| l == 0));
    assert!(samples.iter().any(|&(_, r)| r != 0));
}
