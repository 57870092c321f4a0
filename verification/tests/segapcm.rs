use dro_synth::chip::{ChipCore, ChipSettings};
use dro_synth::cores::segapcm::SegaPcm;


/// The OutRun board's PCM clock.
const CLOCK: u32 = 4_000_000;

fn render(chip: &mut SegaPcm, frames: usize) -> Vec<(i32, i32)> {
    let mut out = vec![0i32; frames * 2];
    chip.render(&mut out);
    out.chunks_exact(2).map(|f| (f[0], f[1])).collect()
}

fn energy(samples: &[(i32, i32)]) -> i64 {
    samples
        .iter()
        .map(|&(l, r)| i64::from(l.abs()) + i64::from(r.abs()))
        .sum()
}

fn rom() -> Vec<u8> {
    let mut rom = vec![0u8; 0x3000];
    for (index, byte) in rom[0x1000..0x2000].iter_mut().enumerate() {
        *byte = if index % 2 == 0 { 0x7F } else { 0x81 };
    }
    rom
}

/// Channel 0 keyed onto the sample at 0x1000, one byte a frame.
fn key_on(chip: &mut SegaPcm) {
    chip.write(0, 0x02, 0x1F); // volume left
    chip.write(0, 0x03, 0x1F); // volume right
    chip.write(0, 0x84, 0x00); // address 0x1000 (16.8: page 0x10)
    chip.write(0, 0x85, 0x10);
    chip.write(0, 0x06, 0x1F); // end page 0x20
    chip.write(0, 0x07, 0xFF); // delta: just under one byte a frame
    chip.write(0, 0x86, 0x02); // run, loop disabled
}

#[test]
fn segapcm_a_fresh_chip_is_silent_and_a_keyed_one_is_not() {
    let mut chip = SegaPcm::new();
    chip.reset(CLOCK, false);
    let sample_rom = rom();
    chip.load_rom(0x80, sample_rom.len() as u32, 0, &sample_rom);
    assert_eq!(energy(&render(&mut chip, 200)), 0, "all stop bits at reset");
    key_on(&mut chip);
    assert!(energy(&render(&mut chip, 200)) > 0);
}

/// A one-shot sets its own stop bit at the end page; with the loop
/// enabled the same channel returns to its loop address instead.
#[test]
fn the_end_page_stops_or_loops() {
    let mut chip = SegaPcm::new();
    chip.reset(CLOCK, false);
    let sample_rom = rom();
    chip.load_rom(0x80, sample_rom.len() as u32, 0, &sample_rom);
    key_on(&mut chip);
    render(&mut chip, 0x1100);
    assert_eq!(energy(&render(&mut chip, 200)), 0, "one-shot must stop");
    assert_eq!(chip.ram[0x86] & 1, 1, "and the stop bit is readable");

    chip.write(0, 0x04, 0x00); // loop to 0x1000
    chip.write(0, 0x05, 0x10);
    chip.write(0, 0x84, 0x00);
    chip.write(0, 0x85, 0x10);
    chip.write(0, 0x86, 0x00); // run, loop enabled
    render(&mut chip, 0x1100);
    assert!(energy(&render(&mut chip, 200)) > 0, "the loop must sustain");
}

/// The interface word folds the bank bits: OutRun's shift-12 layout
/// finds a byte at bank 1 where the default would not.
#[test]
fn the_interface_word_places_the_bank() {
    let mut chip = SegaPcm::new();
    chip.reset(CLOCK, false);
    chip.configure(&ChipSettings {
        sega_pcm_interface: 0x00F8_000C,
        ..Default::default()
    });
    assert_eq!(chip.bank_shift, 0x0C);
    assert_eq!(chip.bank_mask, 0xF8);
}
