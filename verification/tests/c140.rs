use dro_synth::chip::{ChipCore, ChipSettings};
use dro_synth::cores::c140::{mulaw, C140, SEGMENT_BASE};


/// The rate C140 headers usually carry.
const CLOCK: u32 = 21_390;

fn render(chip: &mut C140, frames: usize) -> Vec<(i32, i32)> {
    let mut out = vec![0i32; frames * 2];
    chip.render(&mut out);
    out.chunks_exact(2).map(|f| (f[0], f[1])).collect()
}

fn energy(samples: &[(i32, i32)]) -> i64 {
    samples
        .iter()
        .map(|&(l, r)| i64::from(l.abs()) + i64::from(r.abs()))
        .sum()
}

fn rom() -> Vec<u8> {
    let mut rom = vec![0u8; 0x2000];
    for (index, byte) in rom[0x1000..0x1100].iter_mut().enumerate() {
        *byte = if index % 2 == 0 { 0x7F } else { 0x81 };
    }
    rom
}

fn key_on(chip: &mut C140) {
    chip.write(0, 0x00, 0xFF); // both sides full
    chip.write(0, 0x01, 0xFF);
    chip.write(0, 0x02, 0xFF); // frequency just under 1:1
    chip.write(0, 0x03, 0xFF);
    chip.write(0, 0x04, 0x00); // bank 0
    chip.write(0, 0x06, 0x10); // start 0x1000
    chip.write(0, 0x07, 0x00);
    chip.write(0, 0x08, 0x11); // end 0x1100
    chip.write(0, 0x09, 0x00);
    chip.write(0, 0x05, 0x80); // key on, linear, no loop
}

#[test]
fn c140_a_fresh_chip_is_silent_and_a_keyed_one_is_not() {
    let mut chip = C140::new();
    chip.reset(CLOCK, false);
    let sample_rom = rom();
    chip.load_rom(0x8D, sample_rom.len() as u32, 0, &sample_rom);
    assert_eq!(energy(&render(&mut chip, 200)), 0);
    key_on(&mut chip);
    assert!(energy(&render(&mut chip, 200)) > 0);
}

/// A one-shot stops at its end register; a looped voice keeps sounding.
#[test]
fn the_end_register_stops_and_the_loop_bit_sustains() {
    let mut chip = C140::new();
    chip.reset(CLOCK, false);
    let sample_rom = rom();
    chip.load_rom(0x8D, sample_rom.len() as u32, 0, &sample_rom);
    key_on(&mut chip);
    render(&mut chip, 0x180); // run past the end
    assert_eq!(energy(&render(&mut chip, 200)), 0, "a one-shot must stop");

    chip.write(0, 0x0A, 0x10); // loop back to the start
    chip.write(0, 0x0B, 0x00);
    chip.write(0, 0x05, 0x90); // key on, looping
    render(&mut chip, 0x400);
    assert!(
        energy(&render(&mut chip, 200)) > 0,
        "a looped voice must keep sounding"
    );
}

/// The mu-law segment table against its construction, and the decode's
/// polarity: bit 7 is the negative half.
#[test]
fn the_mulaw_table_doubles_per_segment() {
    let mut base = 0;
    for (index, &entry) in SEGMENT_BASE.iter().enumerate() {
        assert_eq!(entry, base, "segment {index}");
        base += 16 << index;
    }
    assert_eq!(mulaw(0x00), 0);
    assert_eq!(mulaw(0x7F), 2032 + (15 << 7));
    assert_eq!(mulaw(0xFF), -(2032 + (15 << 7)));
    // Compressed mode actually reaches the decode.
    let mut chip = C140::new();
    chip.reset(CLOCK, false);
    let mut sample_rom = vec![0u8; 0x2000];
    sample_rom[0x1000..0x1100].fill(0x7F); // loudest positive mu-law code
    chip.load_rom(0x8D, sample_rom.len() as u32, 0, &sample_rom);
    key_on(&mut chip);
    chip.write(0, 0x05, 0x88); // key on, compressed
    let peak = render(&mut chip, 50)
        .iter()
        .map(|&(l, _)| l)
        .max()
        .unwrap_or(0);
    assert!(peak > 8000, "the loudest mu-law code must be loud: {peak}");
}

/// The System 21 fold moves bit 21 down by one; System 2 by two. A ROM
/// byte placed where only the folded address finds it proves which fold
/// ran.
#[test]
fn the_board_type_selects_the_address_fold() {
    let mut chip = C140::new();
    chip.reset(CLOCK, false);
    chip.configure(&ChipSettings {
        c140_type: 1, // System 21
        ..Default::default()
    });
    // bank 0x20 -> raw 0x200000; System 21 folds it to 0x100000.
    assert_eq!(chip.address(0x20, 0x0000), 0x10_0000);
    chip.configure(&ChipSettings {
        c140_type: 0,
        ..Default::default()
    });
    assert_eq!(chip.address(0x20, 0x0000), 0x08_0000);
}
