use dro_synth::chip::ChipCore;
use dro_synth::cores::ga20::{Channel, Ga20};


/// The M-92's GA20 clock.
const CLOCK: u32 = 3_579_545;

fn render(chip: &mut Ga20, frames: usize) -> Vec<i32> {
    let mut out = vec![0i32; frames * 2];
    chip.render(&mut out);
    out.chunks_exact(2).map(|f| f[0]).collect()
}

fn energy(samples: &[i32]) -> i64 {
    samples.iter().map(|&s| i64::from(s.abs())).sum()
}

fn rom() -> Vec<u8> {
    let mut rom = vec![0u8; 0x3000];
    for (index, byte) in rom[0x1000..0x2000].iter_mut().enumerate() {
        // Alternating extremes, avoiding the 0x00 end marker.
        *byte = if index % 2 == 0 { 0xFF } else { 0x01 };
    }
    rom
}

fn key_on(chip: &mut Ga20) {
    chip.write(0, 0x00, 0x00); // start 0x1000 = unit 0x0100
    chip.write(0, 0x01, 0x01);
    chip.write(0, 0x02, 0x00); // end 0x2000 = unit 0x0200
    chip.write(0, 0x03, 0x02);
    chip.write(0, 0x04, 0xF0); // divider 16: one byte a frame
    chip.write(0, 0x05, 0xFF); // full volume
    chip.write(0, 0x06, 0x02); // key on
}

#[test]
fn ga20_a_fresh_chip_is_silent_and_a_keyed_one_is_not() {
    let mut chip = Ga20::new();
    chip.reset(CLOCK, false);
    let sample_rom = rom();
    chip.load_rom(0x93, sample_rom.len() as u32, 0, &sample_rom);
    assert_eq!(energy(&render(&mut chip, 200)), 0);
    key_on(&mut chip);
    assert!(energy(&render(&mut chip, 200)) > 0);
}

/// **`0x00` is the end marker.** A marker mid-sample stops the channel
/// early; the end register stops it regardless.
#[test]
fn the_zero_byte_ends_a_sample() {
    let mut chip = Ga20::new();
    chip.reset(CLOCK, false);
    let mut sample_rom = rom();
    sample_rom[0x1080] = 0x00; // an early marker
    chip.load_rom(0x93, sample_rom.len() as u32, 0, &sample_rom);
    key_on(&mut chip);
    render(&mut chip, 0x100); // past the marker, well short of the end
    assert_eq!(
        energy(&render(&mut chip, 100)),
        0,
        "the marker must stop the channel"
    );
}

/// The rate register is a divider: 0xF8 plays twice as fast as 0xF0.
#[test]
fn the_rate_register_divides() {
    let a = Channel {
        rate: 0xF0,
        ..Channel::default()
    };
    let b = Channel {
        rate: 0xF8,
        ..Channel::default()
    };
    assert_eq!(b.step(), a.step() * 2);
}
