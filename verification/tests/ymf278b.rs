use dro_synth::chip::ChipCore;
use dro_synth::cores::ymf278b::{Format, Ymf278b};


/// The MoonSound crystal.
const CLOCK: u32 = 33_868_800;

fn render(chip: &mut Ymf278b, frames: usize) -> Vec<(i32, i32)> {
    let mut out = vec![0i32; frames * 2];
    chip.render(&mut out);
    out.chunks_exact(2).map(|f| (f[0], f[1])).collect()
}

fn energy(samples: &[(i32, i32)]) -> i64 {
    samples
        .iter()
        .map(|&(l, r)| i64::from(l.abs()) + i64::from(r.abs()))
        .sum()
}

/// A ROM with wave 0's header pointing at an 8-bit sample at 0x1000.
fn rom() -> Vec<u8> {
    let mut rom = vec![0u8; 0x2000];
    // Header 0: format 8-bit, start 0x001000, loop 0x40, end count 0x100.
    rom[0] = 0x00;
    rom[1] = 0x10;
    rom[2] = 0x00;
    rom[3] = 0x00;
    rom[4] = 0x40;
    let end_field = 0x1_0000u32 - 0x100;
    rom[5] = (end_field >> 8) as u8;
    rom[6] = (end_field & 0xFF) as u8;
    for (index, byte) in rom[0x1000..0x1100].iter_mut().enumerate() {
        *byte = if index % 2 == 0 { 0x7F } else { 0x81 };
    }
    rom
}

fn key_on(chip: &mut Ymf278b) {
    chip.write(2, 0x20, 0x00); // wave bit 8 clear, fnum low 0
    chip.write(2, 0x08, 0x00); // wave 0: loads the header
    chip.write(2, 0x38, 0x00); // octave 0
    chip.write(2, 0x50, 0x00); // full level
    chip.write(2, 0x68, 0x80); // key on, centre pan
}

#[test]
fn ymf278b_a_fresh_chip_is_silent_and_a_keyed_one_is_not() {
    let mut chip = Ymf278b::new();
    chip.reset(CLOCK, false);
    assert_eq!(chip.native_rate(), 44_100);
    let sample_rom = rom();
    chip.load_rom(0x84, sample_rom.len() as u32, 0, &sample_rom);
    assert_eq!(energy(&render(&mut chip, 200)), 0);
    key_on(&mut chip);
    assert!(energy(&render(&mut chip, 200)) > 0);
}

/// The header is read from the ROM: format, start and end all come from
/// the wave table, and a key-off fades rather than clicks.
#[test]
fn the_header_drives_playback_and_keyoff_fades() {
    let mut chip = Ymf278b::new();
    chip.reset(CLOCK, false);
    let sample_rom = rom();
    chip.load_rom(0x84, sample_rom.len() as u32, 0, &sample_rom);
    key_on(&mut chip);
    assert_eq!(chip.voices[0].start, 0x1000, "start from the header");
    assert_eq!(chip.voices[0].end, 0x100, "end count from the header");
    render(&mut chip, 100);

    chip.write(2, 0x68, 0x00); // key off
    let fade = energy(&render(&mut chip, 60));
    assert!(fade > 0, "the release must fade, not cut");
    render(&mut chip, 200);
    assert_eq!(energy(&render(&mut chip, 100)), 0, "and then be silent");
}

/// Packed 12-bit: two samples in three bytes, both halves decoded.
#[test]
fn the_packed_twelve_bit_format_decodes() {
    let mut chip = Ymf278b::new();
    chip.rom = vec![0u8; 16];
    // Sample a = 0x7F0 positive, sample b = 0x801 negative.
    chip.rom[0] = 0x7F;
    chip.rom[1] = 0x01; // a low nibble 0, b low nibble 1
    chip.rom[2] = 0x80;
    let a = chip.sample(Format::Pcm12, 0, 0).unwrap();
    let b = chip.sample(Format::Pcm12, 0, 1).unwrap();
    assert!(a > 0 && b < 0, "a={a} b={b}");
}
