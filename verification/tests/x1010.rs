use dro_synth::chip::ChipCore;
use dro_synth::cores::x1010::X1010;


/// The Seta boards' 16 MHz.
const CLOCK: u32 = 16_000_000;

fn render(chip: &mut X1010, frames: usize) -> Vec<(i32, i32)> {
    let mut out = vec![0i32; frames * 2];
    chip.render(&mut out);
    out.chunks_exact(2).map(|f| (f[0], f[1])).collect()
}

fn energy(samples: &[(i32, i32)]) -> i64 {
    samples
        .iter()
        .map(|&(l, r)| i64::from(l.abs()) + i64::from(r.abs()))
        .sum()
}

fn pcm_key_on(chip: &mut X1010) {
    let mut rom = vec![0u8; 0x3000];
    for (index, byte) in rom[0x1000..0x2000].iter_mut().enumerate() {
        *byte = if index % 2 == 0 { 0x7F } else { 0x81 };
    }
    chip.load_rom(0x91, rom.len() as u32, 0, &rom);
    chip.write(0, 1, 0xFF); // volume nibbles
    chip.write(0, 2, 0x40); // a quarter byte a frame
    chip.write(0, 4, 0x01); // start page 1 (0x1000)
    chip.write(0, 5, 0xFE); // end page: 0x100-0xFE = 2 (0x2000)
    chip.write(0, 0, 0x01); // key on, PCM
}

#[test]
fn pcm_mode_plays_and_self_stops_at_the_end() {
    let mut chip = X1010::new();
    chip.reset(CLOCK, false);
    assert_eq!(energy(&render(&mut chip, 200)), 0);
    pcm_key_on(&mut chip);
    assert!(energy(&render(&mut chip, 500)) > 0);
    // 0x1000 bytes at 1/4 byte a frame.
    render(&mut chip, 0x4000);
    assert_eq!(energy(&render(&mut chip, 200)), 0, "the end page stops");
    assert_eq!(chip.ram[0] & 1, 0, "and clears its own key bit");
}

/// Wavetable mode reads a RAM wave through a RAM envelope -- all of it
/// uploaded through the same address space as the registers.
#[test]
fn wave_mode_reads_ram_through_the_envelope() {
    let mut chip = X1010::new();
    chip.reset(CLOCK, false);
    // Waveform 1: a square. Envelope 2: full volume throughout.
    for at in 0..0x80u16 {
        chip.write(0, 0x1080 + at, if at < 0x40 { 0x7F } else { 0x81 });
        chip.write(0, 0x100 + at, 0xFF);
    }
    chip.write(0, 1, 0x01); // waveform 1
    chip.write(0, 2, 0x00); // pitch
    chip.write(0, 3, 0x08);
    chip.write(0, 4, 0x10); // envelope time
    chip.write(0, 5, 0x02); // envelope 2
    chip.write(0, 0, 0x03); // key on, wavetable
    assert!(energy(&render(&mut chip, 500)) > 0);

    // A silent envelope table silences the same wave.
    for at in 0..0x80u16 {
        chip.write(0, 0x100 + at, 0x00);
    }
    assert_eq!(energy(&render(&mut chip, 200)), 0);
}
