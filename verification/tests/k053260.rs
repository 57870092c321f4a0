use dro_synth::chip::ChipCore;
use dro_synth::cores::k053260::K053260;


/// The Konami boards' clock.
const CLOCK: u32 = 3_579_545;

fn render(chip: &mut K053260, frames: usize) -> Vec<(i32, i32)> {
    let mut out = vec![0i32; frames * 2];
    chip.render(&mut out);
    out.chunks_exact(2).map(|f| (f[0], f[1])).collect()
}

fn energy(samples: &[(i32, i32)]) -> i64 {
    samples
        .iter()
        .map(|&(l, r)| i64::from(l.abs()) + i64::from(r.abs()))
        .sum()
}

fn rom() -> Vec<u8> {
    let mut rom = vec![0u8; 0x2000];
    for (index, byte) in rom[0x1000..0x1100].iter_mut().enumerate() {
        *byte = if index % 2 == 0 { 0x7F } else { 0x81 };
    }
    rom
}

fn key_on(chip: &mut K053260) {
    chip.write(0, 0x08, 0xE0); // pitch 0xFE0: divider 32, one byte a frame
    chip.write(0, 0x09, 0x0F);
    chip.write(0, 0x0A, 0x00); // length 0x100
    chip.write(0, 0x0B, 0x01);
    chip.write(0, 0x0C, 0x00); // start 0x1000
    chip.write(0, 0x0D, 0x10);
    chip.write(0, 0x0E, 0x00);
    chip.write(0, 0x0F, 0x7F); // volume
    chip.write(0, 0x2C, 0x04); // centre-ish pan
    chip.write(0, 0x28, 0x01); // key on voice 0
}

#[test]
fn k053260_a_fresh_chip_is_silent_and_a_keyed_one_is_not() {
    let mut chip = K053260::new();
    chip.reset(CLOCK, false);
    let sample_rom = rom();
    chip.load_rom(0x8E, sample_rom.len() as u32, 0, &sample_rom);
    assert_eq!(energy(&render(&mut chip, 200)), 0);
    key_on(&mut chip);
    assert!(energy(&render(&mut chip, 200)) > 0);
}

/// The length register counts the sample out; the loop bit re-runs it.
#[test]
fn the_length_stops_and_the_loop_sustains() {
    let mut chip = K053260::new();
    chip.reset(CLOCK, false);
    let sample_rom = rom();
    chip.load_rom(0x8E, sample_rom.len() as u32, 0, &sample_rom);
    key_on(&mut chip);
    render(&mut chip, 0x180);
    assert_eq!(energy(&render(&mut chip, 200)), 0, "one-shot must stop");

    chip.write(0, 0x2A, 0x01); // loop voice 0
    chip.write(0, 0x28, 0x00); // key off first: the key is an edge
    chip.write(0, 0x28, 0x01);
    render(&mut chip, 0x400);
    assert!(energy(&render(&mut chip, 200)) > 0, "the loop must sustain");
}

/// The mailboxes carry no audio: writes below 0x08 change nothing.
#[test]
fn the_mailboxes_are_not_registers() {
    let mut chip = K053260::new();
    chip.reset(CLOCK, false);
    for reg in 0..8u16 {
        chip.write(0, reg, 0xFF);
    }
    assert_eq!(energy(&render(&mut chip, 200)), 0);
}
