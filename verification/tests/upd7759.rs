use dro_synth::chip::ChipCore;
use dro_synth::cores::upd7759::Upd7759;


/// The usual 640 kHz.
const CLOCK: u32 = 640_000;

fn render(chip: &mut Upd7759, frames: usize) -> Vec<i32> {
    let mut out = vec![0i32; frames * 2];
    chip.render(&mut out);
    out.chunks_exact(2).map(|f| f[0]).collect()
}

fn energy(samples: &[i32]) -> i64 {
    samples.iter().map(|&s| i64::from(s.abs())).sum()
}

/// One counted block of loud rising nibbles, as a slave stream.
fn slave_stream(chip: &mut Upd7759) {
    chip.write(0, 0, 0x01); // release reset
    let mut bytes = vec![
        0x00, // one block
        0x80, // counted nibbles, rate 1
        0x3F, // 64 nibbles
    ];
    bytes.extend(std::iter::repeat_n(0x77u8, 32));
    for byte in bytes {
        chip.write(0, 2, byte.into());
    }
}

#[test]
fn a_slave_stream_decodes_and_ends() {
    let mut chip = Upd7759::new();
    chip.reset(CLOCK, true);
    assert_eq!(energy(&render(&mut chip, 100)), 0);
    slave_stream(&mut chip);
    assert!(energy(&render(&mut chip, 200)) > 0, "the stream must sound");
    render(&mut chip, 2000);
    assert_eq!(
        energy(&render(&mut chip, 100)),
        0,
        "an exhausted phrase is silence"
    );
}

/// Master mode: the phrase table at the top of the ROM points at the
/// block data.
#[test]
fn master_mode_reads_the_phrase_table() {
    let mut chip = Upd7759::new();
    chip.reset(CLOCK, false);
    let mut rom = vec![0u8; 0x400];
    rom[0] = 0x01; // phrase count
    rom[1..5].copy_from_slice(&[0x5A, 0xA5, 0x69, 0x55]); // the signature
    // Phrase 0's pointer at offset 5: address 0x100 in 2-byte units.
    rom[5] = 0x00;
    rom[6] = 0x80;
    rom[0x100] = 0x00; // one block
    rom[0x101] = 0x80; // counted nibbles, rate 1
    rom[0x102] = 0x3F; // 64 nibbles
    for byte in &mut rom[0x103..0x123] {
        *byte = 0x77;
    }
    chip.load_rom(0x8A, rom.len() as u32, 0, &rom);
    chip.write(0, 0, 0x01); // release reset
    chip.write(0, 2, 0x00); // phrase 0
    chip.write(0, 1, 0x00); // start: falling edge
    assert!(energy(&render(&mut chip, 200)) > 0);
}

/// The silence block holds the line at zero for its counted clocks.
#[test]
fn the_silence_block_counts_clocks() {
    let mut chip = Upd7759::new();
    chip.reset(CLOCK, true);
    chip.write(0, 0, 0x01);
    for byte in [0x01u8, 0x3F, 0x80, 0x3F] {
        chip.write(0, 2, byte.into()); // two blocks: long silence, then data
    }
    for _ in 0..32 {
        chip.write(0, 2, 0x77);
    }
    // 1024 * 64 clocks of silence = 2048 frames at 32 clocks a frame.
    assert_eq!(
        energy(&render(&mut chip, 1500)),
        0,
        "still inside the silence"
    );
    assert!(energy(&render(&mut chip, 1500)) > 0, "then the data plays");
}
